[package]
name = "anthropic_compatible"
version = "0.1.0"
edition = "2021"
publish = false

[dependencies]
axum = "=0.8.9"
futures = "=0.3.34"
mime = "=0.3.17"
secrecy = "=0.10.3"
serde = { version = "=1.0.229", features = ["derive"] }
serde_json = { version = "=1.0.154", features = ["float_roundtrip", "raw_value"] }
url = "=2.5.8"
uuid = "=1.29.0"
