[package]
name = "escrow_core"
version = "0.1.0"
edition = "2021"
publish = false

[dependencies]
solana-pubkey = { version = "=4.4.0", features = ["sha2", "curve25519"] }
pinocchio = { version = "=0.11.2", features = ["account-resize"] }
pinocchio-system = "=0.6.1"
pinocchio-token = "=0.7.0"
pinocchio-associated-token-account = "=0.4.0"
