[package]
name = "replicator"
version = "0.1.0"
edition = "2021"
publish = false

[dependencies]
nanoid = "*"
reqwest = { version = "*", default-features = false, features = ["blocking", "json"] }
serde_json = "*"
thiserror = "*"
