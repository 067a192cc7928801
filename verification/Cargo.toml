[package]
name = "thread_score"
version = "0.1.0"
edition = "2021"
publish = false

[dependencies]
near-sdk = { version = "=4.1.1", default-features = false, features = ["abi", "legacy"] }
schemars = "=0.8.22"
