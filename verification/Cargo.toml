[package]
name = "otcg"
version = "0.1.0"
edition = "2021"
publish = false

[dependencies]
rand = "0.9"
axum = { version = "0.8", features = ["ws"] }
tokio = { version = "1", features = ["full"] }
tower-http = { version = "0.6", features = ["cors"] }
serde = { version = "1", features = ["derive"] }
serde_json = "1"
toml = "0.8"
futures-util = { version = "0.3", features = ["sink"] }
log = "0.4"
env_logger = "0.11"
