[package]
name = "lpfinance"
version = "0.1.0"
edition = "2021"
publish = false

[dependencies]
anchor-lang = "0.24.2"
anchor-spl = "0.24.2"
pyth-client = "0.2.2"
