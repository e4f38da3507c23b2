[package]
name = "tvm_sdk"
version = "0.1.0"
edition = "2021"
publish = false

[dependencies]
chrono = "*"
serde_json = "*"
everscale-types = "*"

[dev-dependencies]
ed25519-dalek = "*"
sha2 = "*"
hex = "*"
