[package]
name = "smart_wallet"
version = "0.1.0"
edition = "2021"
publish = false

[dependencies]
p256 = "0.13"
sha2 = "0.10"

[dev-dependencies]
rand_core = { version = "0.6", features = ["getrandom"] }
