[package]
name = "nft_bridge"
version = "0.1.0"
edition = "2021"
publish = false

[dependencies]
cosmwasm-std = { version = "=1.5.11", features = ["stargate", "ibc3"] }
cosmwasm-schema = "=1.5.11"
cw-storage-plus = "=1.2.0"
cw2 = "=1.1.2"
cw721 = "=0.18.0"
schemars = "=0.8.22"
serde = { version = "=1.0.229", features = ["derive"] }
sg-marketplace = "=1.1.1"
sg721-base = { version = "=0.15.0", features = ["library"] }
