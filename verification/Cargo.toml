[package]
name = "agnoshi"
version = "0.1.0"
edition = "2021"
publish = false

[dependencies]
serde_json = "=1.0.154"
serde = { version = "=1.0.229", features = ["derive"] }
uuid = { version = "=1.29.0", features = ["v4"] }
getrandom = "=0.4.3"
chrono = "=0.4.45"
tokio = { version = "=1.54.1", features = ["fs", "rt", "macros"] }
anyhow = "=1.0.104"
tracing = "=0.1.44"
