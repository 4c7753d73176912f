[package]
name = "alpaca"
version = "0.1.0"
edition = "2021"
publish = false

[dependencies]
futures = "0.3"
reqwest = { version = "0.11", default-features = false }
tokio = { version = "1", features = ["rt", "net"] }
tokio-tungstenite = "0.20"

[dev-dependencies]
serde_json = "1"
