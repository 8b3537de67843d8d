[package]
name = "steam_mobile"
version = "0.1.0"
edition = "2021"
publish = false

[dependencies]
hmac = "0.12"
sha1 = "0.10"
base64 = "0.22"
hex = "0.4"
rsa = "0.8"
rand = "0.8"
serde = { version = "1", features = ["derive"] }
serde_json = "1"
