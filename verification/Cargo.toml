[package]
name = "task_registry"
version = "0.1.0"
edition = "2021"
publish = false

[dependencies]
candid = "*"
ic-cdk = "*"
ic-cdk-macros = "*"
ic-stable-structures = "0.6"
serde = { version = "1", features = ["derive"] }
serde_cbor = "0.11"
