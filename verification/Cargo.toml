[package]
name = "tokio_serde_json"
version = "0.3.0"
edition = "2021"
publish = false

[dependencies]
bytes = "1"
serde = "1"
serde_json = "1"
tokio-serde = "*"
