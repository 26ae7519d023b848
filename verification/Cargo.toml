[package]
name = "distributor_admin"
version = "0.1.0"
edition = "2021"
publish = false

[dependencies]
solana-sdk = "1.18"
spl-associated-token-account = { version = "3", features = ["no-entrypoint"] }
