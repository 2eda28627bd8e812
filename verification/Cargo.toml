[package]
name = "solana_experiments"
version = "0.1.0"
edition = "2021"
publish = false

[dependencies]
pinocchio = "0.8"
pinocchio-system = "0.2"
pinocchio-pubkey = "0.2"
pinocchio-log = "0.4"
borsh = { version = "1", features = ["derive"] }
solana-program = "2"
anchor-lang = "0.31"
