[package]
name = "steel"
version = "0.1.0"
edition = "2021"
publish = false

[dependencies]
solana-address = { version = "*", features = ["curve25519", "sha2"] }
fixed = "*"
