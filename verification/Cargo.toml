[package]
name = "deployer"
version = "0.1.0"
edition = "2021"
publish = false

[dependencies]
anyhow = "1"
clap = { version = "4", features = ["derive", "env"] }
derive_more = "0.99"
ethers = { version = "2", default-features = false }
futures = "0.3"
serde_json = "1"
tracing = "0.1"
url = "2"
