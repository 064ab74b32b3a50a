[package]
name = "deltachat_core"
version = "0.1.0"
edition = "2021"
publish = false

[dependencies]
regex = "1"
chrono = "0.4"
sha1 = "0.10"
rand = "0.9"
colorutils-rs = "*"
percent-encoding = "2"
base64 = "0.22"
serde = { version = "1", features = ["derive"] }
serde_json = "1"
