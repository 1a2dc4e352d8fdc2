[package]
name = "reth_prune"
version = "0.1.0"
edition = "2021"
publish = false

[dependencies]
alloy-primitives = { version = "*", default-features = false, features = ["std"] }
alloy-eips = { version = "*", default-features = false, features = ["std"] }
alloy-rlp = "*"
auto_impl = "*"
once_cell = "*"
rayon = "*"
tokio = { version = "*", features = ["sync"] }
tokio-stream = "*"
tracing = "*"
