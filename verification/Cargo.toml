[package]
name = "claim_curve"
version = "0.1.0"
edition = "2021"
publish = false

[dependencies]
borsh = { version = "1", features = ["derive"] }
solana-program = "1.18"
spl-token = { version = "4", features = ["no-entrypoint"] }
spl-token-2022 = { version = "3", features = ["no-entrypoint"] }
spl-tlv-account-resolution = "0.6"
spl-transfer-hook-interface = "0.6"
