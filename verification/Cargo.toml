[package]
name = "chain_indexer_core"
version = "0.1.0"
edition = "2021"
publish = false

[dependencies]
chrono = "*"
serde = { version = "*", features = ["derive"] }
serde_json = "*"
devii = "*"
named_type = "*"
named_type_derive = "*"
postgres-types = { version = "*", features = ["derive"] }
