[package]
name = "account_inspect"
version = "0.1.0"
edition = "2021"
publish = false

[dependencies]
solana-sdk = "=1.18.26"
solana-account-decoder = "=1.18.26"

[dev-dependencies]
spl-token = "4.0.0"
