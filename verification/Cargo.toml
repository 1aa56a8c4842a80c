[package]
name = "typed_pubsub"
version = "0.1.0"
edition = "2021"
publish = false

[dependencies]
jsonrpc-core = "14"
jsonrpc-pubsub = "14"
serde = "1"
serde_json = "1"

[dev-dependencies]
futures = "0.1"
