[package]
name = "user_service"
version = "0.1.0"
edition = "2021"
publish = false

[dependencies]
actix-web = "=4.15.0"
bincode = "=1.3.3"
env_logger = "=0.10.2"
futures = "=0.3.31"
lapin = "=2.5.5"
mongodb = "=2.8.2"
redis = { version = "=0.23.5", features = ["tokio-comp"] }
serde = { version = "=1.0.229", features = ["derive"] }
serde_json = "=1.0.145"
