[package]
name = "external-control"
version = "0.1.0"
edition = "2021"
publish = false

[dependencies]
anyhow = "=1.0.104"
clap = { version = "=4.6.7", features = ["derive", "env"] }
futures = "=0.3.34"
serde = "=1.0.229"
serde_json = "=1.0.154"
tokio = { version = "=1.54.1", features = ["io-util", "macros", "net", "rt-multi-thread"] }
tokio-tungstenite = "=0.28.0"
tracing = "=0.1.44"
uuid = { version = "=1.29.0", features = ["v4"] }
