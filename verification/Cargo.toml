[package]
name = "ledger_programs"
version = "0.1.0"
edition = "2021"
publish = false

[dependencies]
borsh = { version = "*", features = ["derive"] }
integer-sqrt = "*"
solana-program = "*"
solana-system-interface = { version = "*", features = ["bincode"] }
spl-associated-token-account = { version = "*", features = ["no-entrypoint"] }
spl-token = { version = "*", features = ["no-entrypoint"] }
thiserror = "*"
