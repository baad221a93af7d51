[package]
name = "eth_transactions"
version = "0.1.0"
edition = "2021"
publish = false

[dependencies]
alloy-primitives = { version = "*", features = ["rlp"] }
serde_json = "*"
