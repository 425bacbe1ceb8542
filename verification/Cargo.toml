[package]
name = "midenscan_indexer"
version = "0.1.0"
edition = "2021"
publish = false

[dependencies]
anyhow = "1"
axum = { version = "0.8", default-features = false, features = ["tokio", "http1", "json"] }
dotenvy = "0.15"
env_logger = "0.11"
log = "0.4"
num-bigint = "0.4"
once_cell = "1"
prometheus = { version = "0.14", default-features = false }
serde = { version = "1", features = ["derive"] }
serde_json = "1"
sqlx = { version = "0.8", default-features = false, features = ["runtime-tokio", "postgres", "bigdecimal", "uuid", "derive"] }
tokio = { version = "1", features = ["full"] }
uuid = { version = "1", features = ["v5"] }
