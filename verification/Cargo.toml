[package]
name = "wallet_registry"
version = "0.1.0"
edition = "2021"
publish = false

[dependencies]
jsonapi = "*"
rocket = { version = "*", features = ["json"] }
serde = { version = "*", features = ["derive"] }
serde_json = "*"
