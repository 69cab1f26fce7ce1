[package]
name = "rust_pubsub_client"
version = "0.1.0"
edition = "2021"
publish = false

[dependencies]
dashmap = "*"
futures = "0.3"
parking_lot = "0.12"
reqwest = { version = "*", features = ["json"] }
rust_socketio = { version = "*", features = ["async"] }
serde = { version = "1", features = ["derive"] }
serde_json = "1"
thiserror = "*"
tokio = { version = "1", features = ["full"] }
tracing = "0.1"
uuid = { version = "1", features = ["v4"] }
