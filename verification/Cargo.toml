[package]
name = "powhttp_sdk"
version = "0.1.0"
edition = "2021"
publish = false

[dependencies]
base64 = "=0.22.1"
hex = { version = "=0.4.3", features = ["serde"] }
ulid = { version = "=1.2.1", features = ["serde"] }
url = { version = "=2.5.8", features = ["serde"] }
chrono = { version = "=0.4.45", features = ["serde"] }
serde = { version = "=1.0.229", features = ["derive"] }
tokio = { version = "=1.54.1", features = ["full"] }
tokio-jrpc = "=0.1.0"
