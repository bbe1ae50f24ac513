[package]
name = "kpower_server"
version = "0.1.0"
edition = "2021"
publish = false

[dependencies]
jsonwebtoken = "9"
rand = "0.8"
serde_json = "1"
serde = { version = "1", features = ["derive"] }
axum = { version = "0.6", features = ["headers"] }
tokio = { version = "1", features = ["rt-multi-thread", "macros", "sync", "time", "net"] }
tower-http = { version = "0.4", features = ["cors"] }
futures = "0.3"
async-stream = "0.3"
tracing = "0.1"
tracing-subscriber = { version = "0.3", features = ["env-filter"] }
anyhow = "1"
dotenv = "0.15"
secrecy = "0.8"
