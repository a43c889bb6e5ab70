[package]
name = "stellara"
version = "0.1.0"
edition = "2021"
publish = false

[dependencies]
soroban-sdk = "*"
ed25519-dalek = "*"
sha2 = "*"
