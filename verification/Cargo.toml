[package]
name = "tossd"
version = "0.1.0"
edition = "2021"
publish = false

[dependencies]
soroban-sdk = { version = "29", features = ["testutils"] }
ed25519-dalek = "=2.2.0"
