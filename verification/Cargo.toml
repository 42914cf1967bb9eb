[package]
name = "diamond_vault"
version = "0.1.0"
edition = "2021"
publish = false

[dependencies]
near-sdk = { version = "4.0.0", default-features = false }
