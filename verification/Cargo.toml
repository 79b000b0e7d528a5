[package]
name = "spotted_arms"
version = "0.1.0"
edition = "2021"
publish = false

[dependencies]
axum = { version = "=0.8.9", features = ["http2"] }
axum-github-webhook-extract = "=0.3.0"
clap = { version = "=4.6.7", features = ["derive", "env"] }
gcloud-sdk = { version = "=0.32.5", features = ["google-rest-compute-v1"] }
octocrab = "=0.47.1"
opentelemetry = "=0.33.1"
opentelemetry-gcloud-trace = "=0.29.1"
opentelemetry_sdk = "=0.33.1"
pid1 = "=0.1.6"
reqwest = { version = "=0.12.28", default-features = false, features = ["json", "rustls-tls"] }
rustls = "=0.23.46"
serde = { version = "=1.0.229", features = ["derive"] }
serde_json = "=1.0.154"
thiserror = "=2.0.21"
tokio = { version = "=1.54.1", features = ["macros", "rt-multi-thread", "net", "signal"] }
tower = "=0.5.3"
tower-http = { version = "=0.7.1", features = ["trace"] }
tracing = "=0.1.44"
tracing-opentelemetry = "=0.34.0"
tracing-subscriber = { version = "=0.3.23", features = ["env-filter", "json"] }
url = "=2.5.8"
