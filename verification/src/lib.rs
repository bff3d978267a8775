//! Trace collection services: business codes and responses, log line
//! formatting and storage planning, date handling, hashing, settings and
//! the decisions taken by the HTTP handlers and log watchers.
pub mod common;
pub mod libs_common;
pub mod log_monitor;
pub mod log_upload;
pub mod ntex_auth;
pub mod trace_server;
pub mod trace_stream;
