[package]
name = "soulp"
version = "0.1.0"
edition = "2021"
publish = false

[dependencies]
cosmwasm-schema = "1.5"
cosmwasm-std = { version = "1.5", features = ["stargate"] }
cw-storage-plus = "1.2"
cw2 = "1.1"
cw20 = "1.1"
cw721 = "0.18"
prost = "0.12"
schemars = "0.8"
serde = { version = "1", features = ["derive"] }
thiserror = "1"
