[package]
name = "api"
version = "0.1.0"
edition = "2021"
publish = false

[dependencies]
anyhow = "1"
async-channel = "1"
async-std = { version = "1", features = ["attributes"] }
chrono = { version = "0.4", features = ["serde"] }
dotenv = "0.15"
futures-util = "0.3"
redis = { version = "0.21", features = ["aio", "async-std-comp"] }
serde = { version = "1", features = ["derive"] }
serde_json = "1"
sqlx = { version = "0.5", default-features = false, features = ["runtime-async-std-rustls", "postgres", "uuid", "chrono", "macros"] }
tide = "0.16"
tide-websockets = "0.4"
uuid = { version = "0.8", features = ["serde"] }
