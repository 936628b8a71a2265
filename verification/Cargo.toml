[package]
name = "rustcord"
version = "0.1.0"
edition = "2021"
publish = false

[dependencies]
regex = "1"
unicode-normalization = "0.1"
uuid = { version = "1", features = ["v4", "serde"] }
serde = { version = "1", features = ["derive"] }
ron = "0.8"
log = "0.4"
env_logger = "0.11"
dotenv = "0.15"
async-trait = "0.1"
thiserror = "2"
tokio = { version = "1", features = ["full"] }
serenity = "0.12"
sqlx = { version = "0.8", features = ["runtime-tokio", "postgres", "uuid"] }
redis = { version = "0.27", features = ["tokio-comp"] }
