[package]
name = "regolith"
version = "0.1.0"
edition = "2021"
publish = false

[dependencies]
regex = "1"
napi = { version = "2", features = ["napi4"] }
napi-derive = "2"
