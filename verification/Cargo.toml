[package]
name = "nautilus-architect"
version = "0.1.0"
edition = "2021"
publish = false

[dependencies]
rust_decimal = "=1.43.0"
serde = { version = "=1.0.229", features = ["derive"] }
serde_json = "=1.0.154"
serde_urlencoded = "=0.7.1"
ahash = "=0.8.12"
nautilus-core = { version = "=0.55.0", default-features = false }
nautilus-model = { version = "=0.55.0", default-features = false }
tokio = { version = "=1.54.1", features = ["full"] }
tokio-tungstenite = "=0.30.0"
tokio-util = "=0.7.20"
reqwest = { version = "=0.13.5", default-features = false }
ustr = { version = "=1.1.0", features = ["serde"] }
chrono = { version = "=0.4.45", features = ["serde"] }
anyhow = "=1.0.104"
tracing = "=0.1.44"
