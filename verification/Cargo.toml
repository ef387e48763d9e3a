[package]
name = "portfolio_core"
version = "0.1.0"
edition = "2021"
publish = false

[dependencies]
sha2 = "0.10"
hex = "0.4"
anchor-lang = "0.29.0"
anchor-spl = "0.29.0"

[dev-dependencies]
borsh = "0.10"
