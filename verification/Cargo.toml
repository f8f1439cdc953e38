[package]
name = "nude"
version = "0.1.0"
edition = "2021"
publish = false
rust-version = "1.95"

[dependencies]
anyhow = "=1.0.104"
bollard = "=0.21.1"
chrono = "=0.4.45"
futures = "=0.3.34"
nu-plugin = "=0.114.1"
nu-protocol = "=0.114.1"
serde = "=1.0.229"
serde_json = "=1.0.154"
tokio = { version = "=1.54.1", features = ["rt-multi-thread"] }
