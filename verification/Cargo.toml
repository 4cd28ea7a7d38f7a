[package]
name = "consensus_rpc"
version = "0.1.0"
edition = "2021"
publish = false

[dependencies]
hex = "0.4"
async-trait = "0.1"
eyre = "0.6"
reqwest = { version = "0.11", default-features = false, features = ["json"] }
reqwest-middleware = "0.1"
reqwest-retry = "0.1"
serde = { version = "1", features = ["derive"] }
serde_json = "1"
