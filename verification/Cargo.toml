[package]
name = "temporal"
version = "0.1.0"
edition = "2021"
publish = false

[dependencies]
anyhow = "=1.0.104"
async-trait = "=0.1.92"
futures = "=0.3.34"
serde = { version = "=1.0.229", features = ["derive"] }
serde_json = "=1.0.154"
temporalio-client = "0.2"
temporalio-common = "0.2"
temporalio-sdk = "0.2"
temporalio-sdk-core = "0.2"
tokio = { version = "=1.54.1", features = ["rt-multi-thread", "macros"] }
uuid = { version = "=1.29.0", features = ["v4"] }
