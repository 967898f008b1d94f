[package]
name = "pallet_smart_contract"
version = "0.1.0"
edition = "2021"
publish = false

[dependencies]
substrate-fixed = "*"
sp-arithmetic = { version = "*", default-features = false }
