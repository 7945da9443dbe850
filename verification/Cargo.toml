[package]
name = "pda_records"
version = "0.1.0"
edition = "2021"
publish = false

[dependencies]
base64 = "=0.22.1"
borsh = { version = "=1.8.1", features = ["derive"] }
pinocchio = { version = "=0.10.2", features = ["cpi"] }
pinocchio-log = "=0.5.1"
pinocchio-pubkey = "=0.3.0"
pinocchio-system = "=0.5.0"
pinocchio-token-2022 = "=0.2.0"
shank = "=0.4.9"
solana-address = { version = "=2.9.0", features = ["curve25519"] }
