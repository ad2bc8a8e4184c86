[package]
name = "codex_anthropic"
version = "0.1.0"
edition = "2021"
publish = false

[dependencies]
serde = { version = "1", features = ["derive"] }
serde_json = "1"
http = "1"
tracing = "0.1"
tracing-subscriber = "0.3"
opentelemetry_sdk = { version = "*", features = ["metrics"] }
tokio = { version = "1", features = ["rt", "sync", "time", "macros"] }
futures = "0.3"
eventsource-stream = "0.2"
