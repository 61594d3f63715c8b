[package]
name = "edgelet"
version = "0.1.0"
edition = "2021"
publish = false

[dependencies]
base64 = "*"
url = "*"
http = "*"
serde = { version = "*", features = ["derive"] }
serde_json = "*"
