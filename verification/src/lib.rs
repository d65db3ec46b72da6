//! A file explorer's listing and service logic: sorting directory entries,
//! naming their icons, answering path queries, reading the distribution name
//! and the privileged service's process id, and the service's request loop.
pub mod text;
pub mod mime_table;
pub mod mime;
pub mod listing;
pub mod file_ops;
pub mod file_operations;
pub mod file_abstraction_layer;
pub mod root_ops;
pub mod os_info;
pub mod service;
