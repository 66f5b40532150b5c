[package]
name = "articles"
version = "0.1.0"
edition = "2021"
publish = false

[dependencies]
chrono = { version = "=0.4.45", features = ["serde"] }
axum = { version = "=0.7.9", features = ["multipart"] }
axum-auth = "=0.7.0"
axum_typed_multipart = "=0.11.2"
hyper = "=1.12.0"
hyper-util = { version = "=0.1.21", features = ["client-legacy", "http1", "tokio"] }
tokio = { version = "=1.54.1", features = ["full"] }
tokio-stream = "=0.1.19"
tokio-tar = "=0.3.1"
async-compression = { version = "=0.4.52", features = ["tokio", "gzip"] }
serde = { version = "=1.0.229", features = ["derive"] }
serde_json = "=1.0.154"
sqlx = { version = "=0.7.4", default-features = false, features = ["sqlite", "runtime-tokio", "chrono", "migrate"] }
tower = "=0.4.13"
tower-http = { version = "=0.5.2", features = ["cors", "fs", "normalize-path"] }
tracing = "=0.1.44"
tracing-subscriber = { version = "=0.3.23", features = ["env-filter"] }
lazy_static = "=1.5.1"
base64 = "=0.22.1"
