pub mod hash_utils;
pub mod ip_util;
pub mod models;
