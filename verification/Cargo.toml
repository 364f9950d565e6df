[package]
name = "board"
version = "0.1.0"
edition = "2021"
publish = false

[dependencies]
anyhow = "1"
axum = { version = "0.6", features = ["headers", "ws"] }
axum-extra = { version = "0.7", features = ["cookie"] }
chrono = "0.4"
cookie = "0.17"
docker-api = "0.14"
futures = "0.3"
jsonwebtoken = "9"
minijinja = { version = "1", features = ["loader"] }
once_cell = "1"
serde = { version = "1", features = ["derive"] }
serde_json = "1"
serde_yaml = "0.9"
tokio = { version = "1", features = ["full"] }
tokio-stream = "0.1"
tower-http = { version = "0.4", features = ["cors", "trace"] }
tracing = "0.1"
tracing-subscriber = { version = "0.3", features = ["env-filter"] }
