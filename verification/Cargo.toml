[package]
name = "trustbridge"
version = "0.1.0"
edition = "2021"
publish = false

[dependencies]
axum = "=0.6.20"
chrono = "=0.4.45"
dotenvy = "=0.15.7"
jsonwebtoken = "=9.3.1"
log = "=0.4.34"
pretty_env_logger = "=0.5.0"
serde = { version = "=1.0.229", features = ["derive"] }
sqlx = { version = "=0.7.4", default-features = false, features = ["postgres", "runtime-tokio"] }
stellar-base = "=0.5.0"
stellar_sdk = "=0.1.4"
tokio = { version = "=1.54.1", features = ["full"] }
tracing = "=0.1.44"
validator = "=0.21.0"
