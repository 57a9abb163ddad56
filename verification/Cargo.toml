[package]
name = "trustsystem"
version = "0.1.0"
edition = "2021"
publish = false

[dependencies]
dashmap = "6"
chrono = "0.4"
uuid = { version = "1", features = ["v4"] }
once_cell = "1"
anyhow = "1"
serde = { version = "1", features = ["derive"] }
serde_json = "1"
tokio = { version = "1", features = ["full"] }
axum = "0.7"
tower-http = { version = "0.5", features = ["cors"] }
reqwest = { version = "0.12", default-features = false, features = ["json", "rustls-tls"] }
tracing = "0.1"
tracing-subscriber = { version = "0.3", features = ["env-filter"] }
