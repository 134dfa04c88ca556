[package]
name = "exa_sdk"
version = "0.1.0"
edition = "2021"
publish = false

[dependencies]
serde_json = { version = "1", features = ["arbitrary_precision"] }
secrecy = "0.8"
zeroize = "1"
url = "2"
reqwest = { version = "0.12", default-features = false }
anyhow = "1"
