[package]
name = "arbitrage"
version = "0.1.0"
edition = "2021"
publish = false

[dependencies]
anyhow = "*"
bincode = "1"
chrono = "*"
env_logger = "*"
futures = "*"
lazy_static = "*"
once_cell = "*"
redis = { version = "*", features = ["tokio-comp"] }
rust_decimal = "*"
serde = { version = "*", features = ["derive"] }
serde_json = "*"
sqlx = { version = "*", features = ["mysql", "runtime-tokio"] }
ta = "*"
tokio = { version = "*", features = ["full"] }
toml = "*"
