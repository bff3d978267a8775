pub mod biz_code;
pub mod biz_error;
pub mod biz_resp;
pub mod data_utils;
pub mod log_lines;
pub mod models;
pub mod text;
