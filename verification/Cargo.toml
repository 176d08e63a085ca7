[package]
name = "erc8004-events"
version = "0.1.0"
edition = "2021"
publish = false

[dependencies]
alloy = { version = "*", default-features = false, features = ["std", "providers", "rpc-types-eth", "reqwest"] }
arrow-array = "*"
arrow-schema = "*"
parquet = { version = "*", default-features = false, features = ["arrow", "snap"] }
serde = { version = "*", features = ["derive"] }
serde_json = "*"
tokio = { version = "*", features = ["rt-multi-thread", "time", "sync"] }
