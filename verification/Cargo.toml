[package]
name = "rust_token"
version = "0.1.0"
edition = "2021"
publish = false

[dependencies]
alloy-primitives = { version = "1", default-features = false }
alloy-sol-types = { version = "1", default-features = false }
