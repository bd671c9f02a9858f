[package]
name = "exile_poe2"
version = "0.1.0"
edition = "2021"
publish = false

[dependencies]
ahash = "0.8"
serde = { version = "1", features = ["derive"] }
serde_json = "1"
cpal = "*"
sherpa-onnx = "*"
