[package]
name = "x402_network"
version = "0.1.0"
edition = "2021"
publish = false

[dependencies]
alloy = { version = "*", default-features = false }
once_cell = "1"
serde = "1"
solana-sdk = { version = "*", default-features = false }
