[package]
name = "opa_client"
version = "0.1.0"
edition = "2021"
publish = false

[dependencies]
failure = "0.1"
futures = "0.1"
reqwest = { version = "0.9", default-features = false }
serde = "1"
serde_derive = "1"
serde_json = { version = "1", features = ["raw_value"] }
try_future = "0.1"
