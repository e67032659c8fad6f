[package]
name = "puppeteer"
version = "0.1.0"
edition = "2021"
publish = false

[dependencies]
cosmwasm-std = "1.5"
cosmos-sdk-proto = { version = "0.20", default-features = false }
prost = "0.12"
neutron-sdk = "0.8"
serde = "1"
serde-json-wasm = "1.0"
thiserror = "1"
cw2 = "1.1"
