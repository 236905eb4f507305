[package]
name = "saga_coordinator"
version = "0.1.0"
edition = "2021"
publish = false

[dependencies]
uuid = { version = "1", features = ["v4"] }
serde = { version = "1", features = ["derive"] }
serde_json = "1"
validator = "0.21"
hyper = { version = "0.14", features = ["client", "server", "http1", "tcp", "runtime"] }
tokio = { version = "1", features = ["rt-multi-thread", "macros"] }
config = { version = "0.14", default-features = false, features = ["toml"] }
