[package]
name = "token_demo"
version = "0.1.0"
edition = "2021"
publish = false

[dependencies]
soroban-sdk = { version = "=28.0.0", features = ["hazmat-address"] }
soroban-sdk-tools = "=0.1.4"
