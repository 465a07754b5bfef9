[package]
name = "michi-api"
version = "0.2.0"
edition = "2021"
publish = false

[dependencies]
sha2 = "0.10"
hex = "0.4"
blake3 = "1"
rand = "0.8"
base64 = "0.22"
urlencoding = "2"
uuid = { version = "1", features = ["v4"] }
argon2 = "0.5"
chrono = "0.4"
infer = "*"
serde = { version = "1", features = ["derive"] }
serde_json = "1"
