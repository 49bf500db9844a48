[package]
name = "cosmos_chain_registry"
version = "0.1.0"
edition = "2021"
publish = false

[dependencies]
serde_json = "1"
git2 = "*"
glob = "0.3"
