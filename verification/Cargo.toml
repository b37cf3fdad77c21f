[package]
name = "mcp_security_gateway"
version = "0.1.0"
edition = "2021"
publish = false

[dependencies]
anyhow = "=1.0.104"
axum = "=0.7.9"
bytes = "1"
chrono = "=0.4.45"
dashmap = "=6.2.1"
once_cell = "=1.21.4"
opentelemetry = { version = "=0.20.0", features = ["rt-tokio"] }
opentelemetry-otlp = "=0.13.0"
prometheus = { version = "=0.13.4", default-features = false }
serde = { version = "=1.0.229", features = ["derive"] }
serde_json = "=1.0.154"
thiserror = "=1.0.69"
tokio = { version = "=1.54.1", features = ["full"] }
tokio-stream = "=0.1.19"
tonic = "=0.9.2"
tracing = "=0.1.44"
tracing-opentelemetry = "=0.21.0"
tracing-subscriber = { version = "=0.3.23", features = ["env-filter", "json", "time"] }
uuid = { version = "=1.29.0", features = ["v4"] }
which = "=6.0.3"
