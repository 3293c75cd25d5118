[package]
name = "vault_thresholds"
version = "0.2.0"
edition = "2021"
publish = false

[dependencies]
anchor-lang = "0.30.1"
