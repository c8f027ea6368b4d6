[package]
name = "echo_service"
version = "0.1.0"
edition = "2021"
publish = false

[dependencies]
uuid = { version = "1", features = ["v4"] }
axum = "0.8"
tokio = { version = "1", features = ["full"] }
tower = { version = "0.5", features = ["buffer", "limit", "util"] }
tower-http = { version = "0.6", features = ["trace"] }
chrono = "0.4"
serde = { version = "1", features = ["derive"] }
env_logger = "0.11"
tracing = "0.1"
mimalloc = "0.1"
