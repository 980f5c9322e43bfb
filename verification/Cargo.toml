[package]
name = "fnct"
version = "0.1.0"
edition = "2021"
publish = false

[dependencies]
redis = { version = "0.23", features = ["aio", "tokio-comp"] }
postcard = { version = "1", features = ["use-std"] }
serde = "1"
serde_json = "1"
sha2 = "0.10"
thiserror = "1"
async-trait = "0.1"
