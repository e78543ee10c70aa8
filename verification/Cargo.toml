[package]
name = "obs_pipeline"
version = "0.1.0"
edition = "2021"
publish = false

[dependencies]
tokio = { version = "=1.53.2", features = ["rt", "rt-multi-thread", "macros", "sync"] }
tracing = "=0.1.44"
tracing-subscriber = { version = "=0.3.23", features = ["env-filter", "json", "time"] }
tracing-opentelemetry = "0.21"
opentelemetry = { version = "0.20", features = ["rt-tokio"] }
opentelemetry-otlp = "0.13"
opentelemetry-zipkin = "0.18"
time = { version = "=0.3.55", features = ["formatting"] }
axum = "=0.5.17"
hyper = { version = "=0.14.32", features = ["client", "http1", "tcp"] }
