[package]
name = "subscription_vault"
version = "0.1.0"
edition = "2021"
publish = false

[dependencies]
soroban-sdk = { version = "25.3", features = ["testutils"] }
