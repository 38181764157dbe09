//! Error-reporting bridge: the write-once initialization of the reporting
//! client, the source tag and user identity of the current scope, and the
//! rules that turn log levels into events and breadcrumbs.

pub mod config;
pub mod init;
pub mod scope;
pub mod severity;
pub mod source;
