[package]
name = "rkomga"
version = "0.1.0"
edition = "2021"
publish = false

[dependencies]
indicatif = "0.17"
lazy_static = "1"
reqwest = { version = "0.12", features = ["json", "multipart"] }
serde = { version = "1", features = ["derive"] }
serde_json = "1"
tokio = { version = "1", features = ["full"] }
tracing = "0.1"
tracing-subscriber = "0.3"
