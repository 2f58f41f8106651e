[package]
name = "group_buy"
version = "0.1.0"
edition = "2021"
publish = false

[dependencies]
serde_json = "=1.0.151"
near-sdk = { version = "=5.29.1", default-features = false, features = ["non-contract-usage"] }
