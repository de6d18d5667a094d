[package]
name = "instruments"
version = "0.1.0"
edition = "2021"
publish = false

[dependencies]
chrono = "0.4"
percent-encoding = "2"
rand = "0.8"
colored = "2"
http = "0.2"
tower-http = { version = "0.4", features = ["trace"] }
tracing = "0.1"
tracing-subscriber = { version = "0.3", features = ["env-filter"] }
tracing-opentelemetry = "0.23"
opentelemetry = { version = "0.22", features = ["logs", "metrics", "trace"] }
opentelemetry_sdk = { version = "0.22", features = ["logs", "metrics", "trace", "rt-tokio"] }
opentelemetry-otlp = { version = "0.15", features = ["grpc-tonic", "logs", "metrics", "trace"] }
opentelemetry-stdout = { version = "0.3", features = ["logs", "metrics", "trace"] }
opentelemetry-appender-tracing = "0.3"
opentelemetry-semantic-conventions = "0.14"
async-trait = "0.1"
