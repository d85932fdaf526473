[package]
name = "inheritance_vault"
version = "0.1.0"
edition = "2021"
publish = false

[dependencies]
miden-client = { version = "0.9", features = ["tonic", "sqlite"] }
miden-objects = "0.9"
rand = "0.9"
tokio = { version = "1", features = ["rt-multi-thread", "macros", "time"] }
