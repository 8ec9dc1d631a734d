[package]
name = "lyra_player"
version = "0.1.0"
edition = "2021"
publish = false

[dependencies]
aes = "0.8"
base64 = "0.22"
cipher = { version = "0.4", features = ["block-padding", "alloc"] }
crc32fast = "1"
md-5 = "0.10"
serde = { version = "1", features = ["derive"] }
serde_json = "1"
tracing = "0.1"
waki = "*"
wit-bindgen = "*"
