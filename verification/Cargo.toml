[package]
name = "trace_stream_rs"
version = "0.1.0"
edition = "2021"
publish = false

[dependencies]
regex = "=1.13.1"
chrono = "=0.4.45"
bcrypt = "=0.15.1"
md5 = "=0.7.0"
flate2 = "=1.1.10"
serde = { version = "=1.0.229", features = ["derive"] }
serde_json = "=1.0.154"
log = "=0.4.35"
tokio = { version = "=1.54.1", features = ["full"] }
reqwest = { version = "=0.11.27", default-features = false, features = ["json", "blocking", "rustls-tls"] }
config = "=0.14.1"
pnet = "=0.34.0"
once_cell = "=1.21.4"
anyhow = "=1.0.104"
async-log-watcher = "=0.0.1"
ntex = { version = "=0.7.17", features = ["tokio"] }
# ntex 0.7 does not name these two exactly; the later releases that cargo
# would pick do not compile with it (ntex-router 0.5.3 takes the `http` 1.x
# types where ntex 0.7 uses `http` 0.2, and newer ntex-http error types no
# longer match those of ntex-h2 0.4), so they are held at the last releases
# that ntex 0.7.17 builds with.
ntex-http = "=0.1.11"
ntex-router = "=0.5.2"
futures = "=0.3.34"
