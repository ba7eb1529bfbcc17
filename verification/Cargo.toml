[package]
name = "mvba"
version = "0.1.0"
edition = "2021"
publish = false

[dependencies]
blsttc = "8"
sha2 = "0.10"

[dev-dependencies]
rand = "0.8"
