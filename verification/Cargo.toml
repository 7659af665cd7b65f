[package]
name = "magatsumi"
version = "0.1.0"
edition = "2021"
publish = false

[dependencies]
alloy-primitives = "1"
alloy-provider = { version = "1", default-features = false, features = ["pubsub"] }
alloy-rpc-types = "1"
anyhow = "1"
async-trait = "0.1"
bytes = "1"
rayon = "1"
serde = { version = "1", features = ["derive"] }
serde_json = "1"
thiserror = "2"
tokio-stream = "0.1"
