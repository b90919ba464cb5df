[package]
name = "private_transaction"
version = "0.1.0"
edition = "2021"
publish = false

[dependencies]
alloy-primitives = { version = "*", features = ["serde"] }
futures = "*"
jsonrpsee = { version = "*", features = ["http-client", "server", "macros"] }
reth = "*"
reth-node-ethereum = "*"
reth-primitives = "*"
reth-rpc-eth-types = "*"
serde = { version = "*", features = ["derive"] }
serde_json = "*"
strum = { version = "*", features = ["derive"] }
thiserror = "*"
