[package]
name = "nft-pixel-wall"
version = "0.1.0"
edition = "2021"
publish = false

[dependencies]
cosmwasm-std = "0.16"
cosmwasm-storage = "0.16"
cw-storage-plus = "0.9"
cw2 = "0.9"
cw721 = "0.9"
cw721-base = { version = "0.9", features = ["library"] }
schemars = "0.8"
serde = { version = "1", default-features = false, features = ["derive"] }
thiserror = "1"
