[package]
name = "iceberg_scan"
version = "0.1.0"
edition = "2021"
publish = false

[dependencies]
async-trait = "0.1"
bytes = "1"
datafusion = { version = "*", default-features = false }
futures = "0.3"
tokio = { version = "1", features = ["rt", "rt-multi-thread", "sync"] }
