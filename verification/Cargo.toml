[package]
name = "search_gateway"
version = "0.1.0"
edition = "2021"
publish = false

[dependencies]
actix-web = { version = "4", default-features = false, features = ["macros", "compress-gzip"] }
chrono = "0.4"
dotenv = "0.15"
env_logger = "0.11"
log = "0.4"
mobc = "0.8"
mobc-redis = "0.8"
serde = { version = "1", features = ["derive"] }
serde_json = "1"
uuid = { version = "1", features = ["v4"] }
