[package]
name = "wormhole"
version = "0.1.0"
edition = "2021"
publish = false

[dependencies]
cosmwasm-schema = "1.5"
cosmwasm-std = "1.5"
cw-storage-plus = "1.2"
cw2 = "1.1"
hex = "0.4"
k256 = { version = "0.13", default-features = false, features = ["alloc", "ecdsa"] }
sha3 = "0.10"
thiserror = "1.0"
