//! Where the two named pipes between the interface and the privileged
//! service live.
use vstd::prelude::*;
use crate::text::concat2;

verus! {

/// The pipe that carries requests from the interface to the service, as a
/// NUL-terminated path in `dir`.
pub fn pipe_core_to_service_path(dir: &str) -> (path: String)
    ensures
        path@ == dir@ + "/pipe_core_to_service\0"@,
{
    concat2(dir, "/pipe_core_to_service\0")
}

/// The pipe that carries replies from the service to the interface, as a
/// NUL-terminated path in `dir`.
pub fn pipe_service_to_core_path(dir: &str) -> (path: String)
    ensures
        path@ == dir@ + "/pipe_service_to_core\0"@,
{
    concat2(dir, "/pipe_service_to_core\0")
}

} // verus!
