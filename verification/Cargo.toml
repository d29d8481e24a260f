[package]
name = "backend"
version = "0.1.0"
edition = "2021"
publish = false

[dependencies]
async-openai = "0.24"
async-trait = "0.1"
axum = "0.7"
dotenvy = "0.15"
once_cell = "1"
qdrant-client = "1.10"
reqwest = { version = "0.12", default-features = false, features = ["json", "rustls-tls"] }
serde = { version = "1", features = ["derive"] }
serde_json = "1"
thiserror = "1"
tokio = { version = "1", features = ["full"] }
tower-http = { version = "0.5", features = ["cors", "trace", "request-id"] }
tracing = "0.1"
tracing-subscriber = { version = "0.3", features = ["env-filter"] }
urlencoding = "2"
uuid = { version = "1", features = ["v4"] }
validator = { version = "0.18", features = ["derive"] }
