[package]
name = "engine_backend"
version = "0.1.0"
edition = "2021"
publish = false

[dependencies]
regex = "1"
log = "0.4"
env_logger = "0.10"
futures = "0.3"
tokio = { version = "1", features = ["rt", "net", "sync", "macros"] }
hyper = { version = "0.14", features = ["server", "http1", "runtime"] }
bincode = "1"
serde = { version = "1", features = ["derive"] }
serde_yaml = "0.9"
nats = "0.24"
