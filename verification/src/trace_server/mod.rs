pub mod store_compress;
pub mod async_store_compress;
pub mod file_store;
pub mod settings;
