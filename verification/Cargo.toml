[package]
name = "eth_agent"
version = "0.1.0"
edition = "2021"
publish = false

[dependencies]
alloy-primitives = "1"
anyhow = "1"
chrono = { version = "0.4", features = ["serde"] }
hex = "0.4"
reqwest = { version = "0.12", features = ["json"] }
rig-core = "0.15"
rmcp = { version = "0.3", features = ["client", "server", "macros", "transport-io", "transport-child-process"] }
serde = { version = "1", features = ["derive"] }
serde_json = "1"
tokio = { version = "1", features = ["full"] }
tracing = "0.1"
tracing-subscriber = "0.3"
uuid = { version = "1", features = ["v4"] }
