[package]
name = "transfer_indexer"
version = "0.1.0"
edition = "2021"
publish = false

[dependencies]
chrono = "0.4"
log = "0.4"
solana-sdk = "2"
solana-transaction-status = "2"
