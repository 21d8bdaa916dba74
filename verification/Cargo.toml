[package]
name = "elgamal_bridge"
version = "0.1.0"
edition = "2021"
publish = false

[dependencies]
solana-sdk = "*"
serde = { version = "*", features = ["derive"] }
serde_json = "*"
