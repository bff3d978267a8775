pub mod settings;
pub mod log_monitor;
pub mod api_upload;
