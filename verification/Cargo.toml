[package]
name = "centichain_tx"
version = "0.1.0"
edition = "2021"
publish = false

[dependencies]
centichain_keypair = "=4.0.6"
rand = "=0.8.8"
reqwest = { version = "=0.12.28", features = ["json"] }
rust_decimal = "=1.43.0"
serde = { version = "=1.0.229", features = ["derive"] }
serde_json = "=1.0.154"
serde_with = "=3.24.0"
sha2 = "=0.10.9"
sp-core = "=38.1.0"
