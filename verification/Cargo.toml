[package]
name = "normal_oracle"
version = "0.1.0"
edition = "2021"
publish = false

[dependencies]
soroban-sdk = "=25.3.2"
sep-40-oracle = "=1.4.0"
stellar-axelar-std = { version = "=2.0.1", features = ["derive"] }
stellar-axelar-gateway = "=2.0.1"
stellar-axelar-gas-service = "=2.0.1"
