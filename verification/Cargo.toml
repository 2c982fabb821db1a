[package]
name = "local_kg_bridge"
version = "0.1.0"
edition = "2021"
publish = false

[dependencies]
serde_json = "1"
tokio = { version = "1", features = ["process", "rt", "rt-multi-thread"] }
tracing = "0.1"
