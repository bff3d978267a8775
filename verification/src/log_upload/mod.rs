pub mod http_client;
