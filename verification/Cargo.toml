[package]
name = "pinocchio_airdrop_distributor"
version = "0.1.0"
edition = "2021"
publish = false

[dependencies]
pinocchio = "=0.11.2"
pinocchio-system = "=0.6.1"
pinocchio-pubkey = "=0.3.0"
solana-nostd-keccak = "=0.2.0"

[dev-dependencies]
solana-sha256-hasher = "=3.1.0"
