[package]
name = "osmosis-zapper"
version = "0.1.0"
edition = "2021"
publish = false

[dependencies]
cosmos-sdk-proto = { version = "0.19", default-features = false }
cosmwasm-schema = "1.5"
cosmwasm-std = "1.5"
cw-controllers = "1.1"
cw-storage-plus = "1.2"
cw-utils = "1.0"
cw2 = "1.1"
cw20 = "1.1"
osmosis-std = "0.25"
thiserror = "1"
