[package]
name = "sealed_auction"
version = "0.1.0"
edition = "2021"
publish = false

[dependencies]
base64 = "=0.13.1"
chrono = { version = "=0.4.45", default-features = false, features = ["std"] }
sha2 = "=0.9.9"
subtle = "=2.6.1"
secret-toolkit = "=0.3.0"
secret-cosmwasm-std = "=0.10.1"
secret-cosmwasm-storage = "=0.10.0"
schemars = "0.7"
serde = { version = "1", features = ["derive"] }
serde-json-wasm = "0.2"
