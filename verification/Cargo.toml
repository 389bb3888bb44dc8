[package]
name = "x402_facilitator"
version = "0.1.0"
edition = "2021"
publish = false

[dependencies]
axum = "=0.8.9"
serde_json = "=1.0.154"
tokio = { version = "=1.54.1", features = ["rt", "time"] }
tracing = "=0.1.44"
