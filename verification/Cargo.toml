[package]
name = "gitevents_sdk"
version = "0.1.0"
edition = "2021"
publish = false

[dependencies]
async-trait = "0.1"
eyre = "0.6"
futures = "0.3"
git2 = { version = "*", default-features = false }
tokio = { version = "1", features = ["full"] }
tokio-cron-scheduler = { version = "*", features = ["signal"] }
tracing = "0.1"
uuid = { version = "1", features = ["v4"] }
