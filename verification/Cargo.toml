[package]
name = "swap"
version = "0.1.0"
edition = "2021"
publish = false

[dependencies]
anyhow = "1"
bitcoin = "0.26"
monero = "0.12"
serde = { version = "1", features = ["derive"] }
serde_cbor = "0.11"
thiserror = "1"
time = "0.2"

[dev-dependencies]
serde_json = "1"
