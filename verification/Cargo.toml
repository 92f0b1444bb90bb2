[package]
name = "vault_covenant"
version = "0.1.0"
edition = "2021"
publish = false

[dependencies]
bitcoin = { version = "0.31", features = ["rand-std"] }
secp256kfun = "*"
serde = { version = "1", features = ["derive"] }
serde_json = "1"
anyhow = "1"
