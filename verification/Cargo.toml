[package]
name = "autostepper"
version = "0.1.0"
edition = "2021"
publish = false

[dependencies]
url = "*"
base64 = "*"
serde_json = "*"
uuid = { version = "*", features = ["v4"] }
dirs = "*"
which = "*"
