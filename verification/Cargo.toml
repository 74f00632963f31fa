[package]
name = "stake_manager"
version = "0.1.0"
edition = "2021"
publish = false

[dependencies]
cosmwasm-std = { version = "1.5", features = ["staking", "stargate", "cosmwasm_1_2"] }
neutron-sdk = "0.8"
cosmos-sdk-proto = { version = "0.20", default-features = false }
prost = "0.12"
cw2 = "1.1"
cw20 = "1.1"
cw-storage-plus = "1.2"
schemars = "0.8"
serde = { version = "1.0", default-features = false, features = ["derive"] }
serde-json-wasm = "1.0"
thiserror = "1.0"
cosmwasm-schema = "1.5"
