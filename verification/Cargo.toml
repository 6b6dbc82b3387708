[package]
name = "op_txpool"
version = "0.1.0"
edition = "2021"
publish = false

[dependencies]
op-revm = { version = "*", default-features = false, features = ["std"] }
alloy-primitives = { version = "*", default-features = false, features = ["std"] }
