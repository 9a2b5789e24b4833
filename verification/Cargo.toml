[package]
name = "sol_payment_processor"
version = "0.1.0"
edition = "2021"
publish = false

[dependencies]
borsh = { version = "=1.8.1", features = ["derive"] }
serde_json = "=1.0.154"
solana-program = "2.3"
spl-token = "8"
