[package]
name = "rollbar_rs"
version = "0.1.0"
edition = "2021"
publish = false

[dependencies]
backtrace = "0.3"
lazy_static = "1"
log = "0.4"
reqwest = { version = "0.11", features = ["blocking", "json", "gzip"] }
serde = { version = "1", features = ["derive"] }
serde_json = "1"
tokio = { version = "1", features = ["rt", "rt-multi-thread"] }
uuid = { version = "1", features = ["v4"] }
