//! The request loop of the privileged service, as a state machine: the
//! caller reads and writes the pipes, and this decides what to do next.
use vstd::prelude::*;
use vstd::string::StringExecFns;
use crate::file_ops::{path_exists, MetadataOutcome};
use crate::text::str_equals;

verus! {

/// Where the service is in handling a request.
pub enum ServiceState {
    /// Waiting for a command line.
    AwaitingCommand,
    /// A `path_exists` command came; waiting for its argument line.
    AwaitingArgument { command: String },
    /// The argument came; waiting for the metadata of the path to check.
    CheckingPath,
}

/// What the caller observed.
pub enum ServiceEvent {
    /// A command line was read (without its last byte), or the read failed.
    CommandRead(Option<String>),
    /// Whether an argument line was read.
    ArgumentRead(bool),
    /// What reading the metadata of the checked path gave.
    MetadataRead(MetadataOutcome),
}

/// What the caller is to do next.
pub enum ServiceAction {
    /// Read the next line from the request pipe.
    ReadLine,
    /// Read the metadata of this path.
    CheckPath(String),
    /// Send this text on the reply pipe, then read the next line.
    Reply(String),
    /// Record that an unknown command came, then read the next line.
    ReportInvalidCommand,
}

/// The text that answers whether a path exists.
pub open spec fn bool_text(b: bool) -> Seq<char> {
    if b {
        "true"@
    } else {
        "false"@
    }
}

/// `bool_text(b)`.
pub fn bool_reply(b: bool) -> (text: String)
    ensures
        text@ == bool_text(b),
{
    if b {
        String::from_str("true")
    } else {
        String::from_str("false")
    }
}

/// One step of the service: from a state and what was observed, the next
/// state and action. A `path_exists` command waits for an argument line and
/// then checks the path named by the command line itself (the argument is
/// not used), answering `true` or `false`; a failed read starts over; any
/// other command is reported as invalid.
pub fn service_step(state: ServiceState, event: ServiceEvent) -> (r: (ServiceState, ServiceAction))
    ensures
        match (state, event) {
            (ServiceState::AwaitingCommand, ServiceEvent::CommandRead(Some(c))) => if c@
                == "path_exists"@ {
                &&& r.0 matches ServiceState::AwaitingArgument { command } && command@ == c@
                &&& r.1 is ReadLine
            } else {
                r.0 is AwaitingCommand && r.1 is ReportInvalidCommand
            },
            (ServiceState::AwaitingArgument { command }, ServiceEvent::ArgumentRead(true)) => {
                &&& r.0 is CheckingPath
                &&& r.1 matches ServiceAction::CheckPath(p) && p@ == command@
            },
            (ServiceState::CheckingPath, ServiceEvent::MetadataRead(o)) => {
                &&& r.0 is AwaitingCommand
                &&& r.1 matches ServiceAction::Reply(t) && t@ == bool_text(
                    o == MetadataOutcome::Found,
                )
            },
            _ => r.0 is AwaitingCommand && r.1 is ReadLine,
        },
{
    match state {
        ServiceState::AwaitingCommand => match event {
            ServiceEvent::CommandRead(Some(c)) => {
                if str_equals(c.as_str(), "path_exists") {
                    (ServiceState::AwaitingArgument { command: c }, ServiceAction::ReadLine)
                } else {
                    (ServiceState::AwaitingCommand, ServiceAction::ReportInvalidCommand)
                }
            },
            _ => (ServiceState::AwaitingCommand, ServiceAction::ReadLine),
        },
        ServiceState::AwaitingArgument { command } => match event {
            ServiceEvent::ArgumentRead(true) => (
                ServiceState::CheckingPath,
                ServiceAction::CheckPath(command),
            ),
            _ => (ServiceState::AwaitingCommand, ServiceAction::ReadLine),
        },
        ServiceState::CheckingPath => match event {
            ServiceEvent::MetadataRead(o) => {
                let answer = path_exists(o, true);
                (ServiceState::AwaitingCommand, ServiceAction::Reply(bool_reply(answer.0)))
            },
            _ => (ServiceState::AwaitingCommand, ServiceAction::ReadLine),
        },
    }
}

} // verus!
