[package]
name = "subscription_gate"
version = "0.1.0"
edition = "2021"
publish = false

[dependencies]
solana-program = "1.18"
spl-token = { version = "4", features = ["no-entrypoint"] }
borsh = "1"
