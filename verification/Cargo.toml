[package]
name = "evo_protocol"
version = "0.1.0"
edition = "2021"
publish = false

[dependencies]
serde = { version = "*", features = ["derive"] }
serde_json = "*"
toml = "*"
tracing-appender = "*"
tracing-subscriber = { version = "*", features = ["env-filter", "json"] }
opentelemetry = "*"
opentelemetry_sdk = "*"
opentelemetry-otlp = { version = "*", features = ["http-proto"] }
tracing-opentelemetry = "*"
