[package]
name = "delta_funnel"
version = "0.1.0"
edition = "2021"
publish = false

[dependencies]
async-trait = "=0.1.92"
datafusion = { version = "=51.0.0", default-features = false, features = ["sql"] }
futures-util = "=0.3.34"
serde_json = "=1.0.154"
tokio = { version = "=1.54.1", features = ["rt-multi-thread"] }
