[package]
name = "novel_api"
version = "0.1.0"
edition = "2021"
publish = false

[dependencies]
anyhow = "=1.0.104"
async-nats = "=0.51.0"
axum = "=0.8.9"
bcrypt = "=0.19.3"
chrono = { version = "=0.4.45", features = ["serde"] }
jsonwebtoken = "9"
meilisearch-sdk = "=0.33.0"
redis = { version = "=1.8.1", features = ["tokio-comp", "connection-manager"] }
serde = { version = "=1.0.229", features = ["derive"] }
serde_json = "=1.0.154"
slug = "=0.1.6"
sqlx = { version = "=0.8.6", default-features = false, features = ["postgres", "runtime-tokio", "uuid", "chrono", "json", "macros", "migrate"] }
tokio = { version = "=1.54.1", features = ["full"] }
tower-http = { version = "=0.7.1", features = ["cors", "trace"] }
tracing = "=0.1.44"
tracing-subscriber = { version = "=0.3.23", features = ["env-filter", "json"] }
uuid = { version = "=1.29.0", features = ["v4", "serde"] }
validator = "=0.21.0"
