[package]
name = "edr_provider"
version = "0.1.0"
edition = "2021"
publish = false

[dependencies]
alloy-primitives = { version = "=0.4.2", default-features = false, features = ["std"] }
