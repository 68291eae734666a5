[package]
name = "bors2"
version = "0.1.0"
edition = "2021"
publish = false

[dependencies]
base64 = "*"
curl = "*"
openssl = "*"
rand = "*"
serde = { version = "*", features = ["derive"] }
serde_json = "*"
url = "*"
