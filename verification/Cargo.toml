[package]
name = "near_cli"
version = "0.1.0"
edition = "2021"
publish = false

[dependencies]
clap = { version = "*", features = ["derive"] }
color-eyre = "*"
dialoguer = "*"
dirs = "*"
near-crypto = "*"
near-jsonrpc-client = "*"
near-jsonrpc-primitives = "*"
near-primitives = "*"
serde = { version = "*", features = ["derive"] }
serde_json = "*"
tokio = { version = "*", features = ["rt"] }
