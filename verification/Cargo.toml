[package]
name = "lib_backend"
version = "0.1.0"
edition = "2021"
publish = false

[dependencies]
uuid = { version = "=1.29.0", features = ["v4", "v7", "serde"] }
chrono = { version = "=0.4.45", features = ["serde", "clock"] }
serde = { version = "=1.0.229", features = ["derive"] }
serde_json = "=1.0.154"
serde-value = "=0.7.0"
axum = "=0.8.9"
tokio = { version = "=1.54.1", features = ["full"] }
tower = { version = "=0.5.3", features = ["util"] }
tower-http = { version = "=0.6.11", features = ["cors", "request-id", "trace", "catch-panic"] }
tracing = "=0.1.44"
tracing-subscriber = { version = "=0.3.23", features = ["registry", "env-filter", "fmt"] }
thiserror = "=2.0.21"
syn = { version = "=2.0.119", features = ["full"] }
quote = "=1.0.47"
proc-macro2 = "=1.0.107"
opentelemetry = "=0.31.0"
opentelemetry_sdk = { version = "=0.31.0", features = ["rt-tokio", "experimental_metrics_periodicreader_with_async_runtime"] }
opentelemetry-otlp = { version = "=0.31.1", default-features = false, features = ["http-proto", "reqwest-client", "trace", "metrics", "logs"] }
opentelemetry-appender-tracing = "=0.31.1"
opentelemetry-semantic-conventions = { version = "=0.31.0", features = ["semconv_experimental"] }
tracing-opentelemetry = "=0.32.1"
metrics = "=0.24.6"
metrics-exporter-otel = "=0.3.1"
metrics-process = "=2.4.3"
metrics-tracing-context = "=0.18.1"
tokio-metrics = { version = "=0.5.2", features = ["rt", "metrics-rs-integration"] }
mobc = "=0.9.0"
sqlx = { version = "=0.9.0", default-features = false, features = ["postgres", "runtime-tokio", "migrate"] }
pastey = "=0.2.3"
