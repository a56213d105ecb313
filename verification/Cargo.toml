[package]
name = "artemis-core"
version = "0.1.0"
edition = "2021"
publish = false

[dependencies]
alloy = { version = "1.0", default-features = false, features = ["std", "providers", "pubsub", "network", "rpc-types"] }
anyhow = "=1.0.104"
async-trait = "=0.1.92"
futures = "=0.3.34"
tokio-stream = "=0.1.19"
tracing = "=0.1.44"
