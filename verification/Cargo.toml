[package]
name = "ghostlink"
version = "0.1.0"
edition = "2021"
publish = false

[dependencies]
uuid = { version = "=1.29.0", features = ["v4", "serde"] }
chrono = { version = "=0.4.45", features = ["serde"] }
base64 = "=0.22.1"
dashmap = "=5.5.3"
zeroize = { version = "=1.9.1", features = ["derive"] }
validator = { version = "=0.18.1", features = ["derive"] }
serde = { version = "=1.0.229", features = ["derive"] }
serde_json = { version = "=1.0.154", features = ["preserve_order"] }
axum = { version = "=0.7.9", features = ["ws"] }
tokio = { version = "=1.54.1", features = ["full"] }
jsonwebtoken = "=9.3.1"
argon2 = "=0.5.3"
scylla = "=0.13.2"
deadpool-redis = "=0.15.1"
redis = "=0.25.5"
async-nats = "=0.35.1"
futures = "=0.3.34"
reqwest = { version = "=0.12.28", default-features = false }
governor = "=0.6.3"
tower_governor = "=0.4.3"
tower-http = { version = "=0.5.2", features = ["limit"] }
tracing = "=0.1.44"
tracing-subscriber = { version = "=0.3.23", features = ["env-filter", "json"] }
dotenvy = "=0.15.7"
anyhow = "=1.0.104"
thiserror = "=1.0.69"
