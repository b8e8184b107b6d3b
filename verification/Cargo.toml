[package]
name = "nano_vllm_core"
version = "0.1.0"
edition = "2021"
publish = false

[dependencies]
anyhow = "*"
candle-core = "*"
candle-nn = "*"
candle-transformers = "*"
glob = "*"
safetensors = "*"
serde = { version = "*", features = ["derive"] }
serde_json = "*"
