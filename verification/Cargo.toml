[package]
name = "octabot_connectors"
version = "0.1.0"
edition = "2021"
publish = false

[dependencies]
base64 = "=0.21.7"
chrono = "=0.4.45"
chrono-tz = "=0.10.4"
governor = "=0.10.4"
ntlmclient = "=0.2.0"
octabot-rust-sdk = "=0.1.2"
once_cell = "=1.21.4"
serde = { version = "=1.0.229", features = ["derive"] }
serde_json = "=1.0.154"
strfmt = "=0.2.6"
url = "=2.5.8"
waki = "=0.5.1"

[dev-dependencies]
hmac = "=0.12.1"
md-5 = "=0.10.6"
md4 = "=0.10.2"
regex = "=1.13.1"
