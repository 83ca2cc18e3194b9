[package]
name = "entropy_beacon"
version = "0.1.0"
edition = "2021"
publish = false

[dependencies]
cosmwasm-std = "1"
rand = "0.8"
rand_chacha = "0.3"
schemars = "0.8"
serde = { version = "1", features = ["derive"] }
serde-json-wasm = "1"
sha2 = "0.10"

[dev-dependencies]
base64 = "0.22"
