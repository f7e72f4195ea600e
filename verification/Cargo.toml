[package]
name = "smplx"
version = "0.1.0"
edition = "2021"
publish = false

[dependencies]
simplicityhl = "*"
bitcoin_hashes = "*"
elements-miniscript = "*"
bip39 = { version = "*", features = ["rand"] }
hex = "*"
serde_json = "*"
thiserror = "*"
wasm-bindgen = "*"
bitcoincore-rpc = "*"
