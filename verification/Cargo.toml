[package]
name = "dimo_sdk"
version = "0.1.0"
edition = "2021"
publish = false

[dependencies]
hex = "=0.4.3"
secp256k1 = { version = "=0.33.1", features = ["recovery"] }
serde = { version = "=1.0.229", features = ["derive"] }
serde_json = "=1.0.151"
sha3 = "=0.12.0"

[dependencies.reqwest]
version = "=0.13.5"
default-features = false
features = ["blocking", "json"]
