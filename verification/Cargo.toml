[package]
name = "nft_sale"
version = "0.1.0"
edition = "2021"
publish = false

[dependencies]
secret-cosmwasm-std = "=1.1.11"
secret-toolkit = "=0.10.3"
serde = { version = "=1.0.229", features = ["derive"] }
