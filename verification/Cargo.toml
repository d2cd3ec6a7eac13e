[package]
name = "pass"
version = "0.1.0"
edition = "2021"
publish = false

[dependencies]
soroban-sdk = { version = "=28.0.0", features = ["hazmat-address"] }
ultrahonk_soroban_verifier = "=0.1.0"

[dev-dependencies]
soroban-sdk = { version = "=28.0.0", features = ["testutils"] }
