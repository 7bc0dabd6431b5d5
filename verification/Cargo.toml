[package]
name = "dao_pre_propose_base"
version = "0.1.0"
edition = "2021"
publish = false

[dependencies]
semver = "=1.0.28"
cosmwasm-std = "=1.5.11"
cosmwasm-schema = "=1.5.11"
serde = "=1.0.229"
cw2 = "=1.1.2"
cw-denom = "=2.6.0"
cw-storage-plus = "=1.2.0"
dao-interface = "=2.6.0"
dao-voting = "=2.6.0"
cw-multi-test = "0.20"
prost = "=0.11.9"
anyhow = "=1.0.104"
