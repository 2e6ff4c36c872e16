[package]
name = "cds-web"
version = "0.1.0"
edition = "2021"
publish = false

[dependencies]
anyhow = "=1.0.104"
argon2 = "=0.5.3"
axum = { version = "=0.8.9", features = ["multipart", "ws"] }
chrono = "=0.4.45"
futures = "=0.3.34"
futures-util = "=0.3.34"
jsonwebtoken = "=9.3.1"
mime = "=0.3.17"
nanoid = "=0.4.0"
prometheus = { version = "*", default-features = false }
regex = "=1.13.1"
scraper = "=0.29.0"
serde = { version = "=1.0.229", features = ["derive"] }
serde_json = { version = "=1.0.154", features = ["preserve_order"] }
thiserror = "=2.0.21"
time = "=0.3.55"
tokio = { version = "=1.54.1", features = ["rt", "macros", "time"] }
tower-http = { version = "*", features = ["fs", "trace"] }
tower-sessions = "=0.15.0"
tower_governor = "*"
tracing = "=0.1.44"
utoipa = "*"
utoipa-axum = "*"
uuid = { version = "=1.29.0", features = ["v4"] }
validator = { version = "=0.21.0", features = ["derive"] }
