[package]
name = "slipstream"
version = "0.1.0"
edition = "2021"
publish = false

[dependencies]
async-stream = "0.3"
aws-config = "1"
aws-sdk-bedrockruntime = "1"
axum = "0.8"
futures-util = "0.3"
serde = { version = "1", features = ["derive"] }
serde_json = "1"
tokio = { version = "1", features = ["macros", "rt-multi-thread", "net"] }
tracing = "0.1"
tracing-subscriber = "0.3"
