[package]
name = "ra_contracts"
version = "0.1.0"
edition = "2021"
publish = false

[dependencies]
cosmwasm-std = "1.5"
cosmwasm-schema = "1.5"
cw-storage-plus = "1.2"
cw2 = "1.1"
cw20 = "1.1"
cw20-base = { version = "1.1", features = ["library"] }
cw721-base = { version = "0.18", features = ["library"] }
serde = { version = "1", features = ["derive"] }
thiserror = "1"
