[package]
name = "ics20-swap"
version = "0.1.0"
edition = "2021"
publish = false

[dependencies]
cosmwasm-std = { version = "1", features = ["stargate"] }
cw20 = "1"
cw-storage-plus = "1"
serde = { version = "1", default-features = false, features = ["derive"] }
prost = "0.11"
