[package]
name = "evo"
version = "0.1.0"
edition = "2021"
publish = false

[dependencies]
arc-swap = "=1.9.3"
base64 = "=0.22.1"
serde = { version = "=1.0.229", features = ["derive"] }
serde_json = "=1.0.154"
thiserror = "=1.0.69"
tokio = { version = "=1.54.1", features = ["fs", "io-util", "macros", "net", "rt", "signal", "sync", "time"] }
tracing = "=0.1.44"
