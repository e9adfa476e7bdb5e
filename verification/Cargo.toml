[package]
name = "ingestion"
version = "0.1.0"
edition = "2021"
publish = false

[dependencies]
rdkafka = "*"
axum = "*"
tokio = { version = "*", features = ["macros", "rt-multi-thread", "net"] }
tower-http = { version = "*", features = ["cors"] }
dotenv = "*"
env_logger = "*"
log = "*"
