[package]
name = "rmcp-in-process-transport"
version = "0.1.0"
edition = "2021"
publish = false

[dependencies]
rmcp = { version = "*", features = ["client", "server"] }
tokio = { version = "1", features = ["sync", "rt", "macros"] }
futures = "0.3"
tracing = "0.1"
