[package]
name = "telemetry_rust"
version = "0.1.0"
edition = "2021"
publish = false

[dependencies]
opentelemetry = "=0.33.1"
opentelemetry_sdk = "=0.33.1"
opentelemetry-otlp = { version = "=0.33.1", features = ["grpc-tonic"] }
opentelemetry-semantic-conventions = { version = "=0.33.1", features = ["semconv_experimental"] }
opentelemetry-zipkin = { version = "=0.33.0", default-features = false }
opentelemetry-aws = "*"
tracing = "=0.1.44"
tracing-subscriber = { version = "=0.3.23", features = ["json"] }
tracing-opentelemetry = "=0.34.0"
tracing-opentelemetry-instrumentation-sdk = { version = "=0.42.1", features = ["http"] }
tracing-serde = "=0.2.0"
serde = "=1.0.229"
serde_json = "=1.0.154"
http = "=1.5.0"
pin-project-lite = "=0.2.17"
futures-util = "=0.3.34"
tower = "=0.5.3"
hyper = { version = "=1.12.0", features = ["client", "http1", "http2"] }
hyper-util = { version = "=0.1.21", features = ["client-legacy", "http1", "tokio"] }
reqwest = { version = "=0.13.5", default-features = false }
thiserror = "=2.0.21"
aws-types = "=1.7.0"
