[package]
name = "neutron_voting_registry"
version = "0.1.0"
edition = "2021"
publish = false

[dependencies]
cosmwasm-std = "=1.5.11"
cw2 = "=1.1.2"
serde = { version = "=1.0.229", features = ["derive"] }
schemars = "=0.8.22"
thiserror = "=1.0.69"
serde-json-wasm = "=0.5.2"

[dev-dependencies]
anyhow = "=1.0.104"
