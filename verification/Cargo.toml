[package]
name = "fundraiser"
version = "0.1.0"
edition = "2021"
publish = false

[dependencies]
solana-program = "=5.1.0"
spl-token = "=9.0.0"
spl-token-2022 = "=11.1.0"
pinocchio = { version = "=0.11.2", features = ["cpi", "account-resize"] }
pinocchio-token = "=0.7.0"
five8_const = "=1.0.0"

[dev-dependencies]
borsh = "=1.8.1"
