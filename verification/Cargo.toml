[package]
name = "node_service"
version = "0.1.0"
edition = "2021"
publish = false

[dependencies]
futures = "0.3"
sp-consensus-aura = "0.8.0"
sp-core = "2.0.0"
sp-inherents = "2.0.0"
substrate-bip39 = "=0.4.2"
