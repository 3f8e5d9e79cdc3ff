[package]
name = "wordsapi"
version = "0.1.0"
edition = "2021"
publish = false

[dependencies]
hyper = "0.12"
hyper-tls = "0.3"
tokio-core = "0.1"
serde = { version = "1", features = ["derive"] }
serde_derive = "1"
serde_json = "1"
