[package]
name = "ollo"
version = "0.1.0"
edition = "2021"
publish = false

[dependencies]
cosmwasm-std = "1"
cw20 = "1"
cosmwasm-schema = "1"
cw-storage-plus = "1"
