[package]
name = "serde_transport"
version = "0.1.0"
edition = "2021"
publish = false

[dependencies]
serde_json = "1"
futures = "0.3"
tokio = { version = "1", features = ["net", "io-util"] }
