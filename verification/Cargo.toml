[package]
name = "elara"
version = "0.1.0"
edition = "2021"
publish = false

[dependencies]
base64 = "=0.22.1"
hmac = "=0.12.1"
napi = { version = "=2.16.17", features = ["napi4", "async"] }
napi-derive = "=2.16.13"
sha2 = "=0.10.9"
tokio = { version = "=1.54.1", features = ["sync"] }
uuid = { version = "=1.29.0", features = ["v4"] }
