[package]
name = "desertyard_worker"
version = "0.1.0"
edition = "2021"
publish = false

[dependencies]
md5 = "*"
hex = "*"
worker = "*"
reqwest = { version = "*", default-features = false }
futures = "*"
log = "*"
anyhow = "*"
web-time = "*"

[dev-dependencies]
serde_json = "*"
