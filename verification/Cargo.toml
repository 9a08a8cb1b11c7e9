[package]
name = "conveyor"
version = "0.1.0"
edition = "2021"
publish = false

[dependencies]
rand = "*"
alloy = { version = "*", default-features = false, features = ["std", "contract", "signer-local", "rpc-types"] }
alloy-sol-types = "*"
tokio = { version = "*", features = ["full"] }
tokio-util = "*"
futures-util = "*"
tracing = "*"
