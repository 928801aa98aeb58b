[package]
name = "multisig_core"
version = "0.1.0"
edition = "2021"
publish = false

[dependencies]
pinocchio = "=0.11.2"
pinocchio-log = "=0.5.1"
shank = "=0.4.9"
solana-address = { version = "=2.9.0", features = ["curve25519"] }
