[package]
name = "finance-suite"
version = "0.1.0"
edition = "2021"
publish = false

[dependencies]
actix-cors = "0.7"
actix-files = "0.6"
actix-multipart = { version = "0.6", default-features = false }
actix-web = { version = "4", default-features = false, features = ["macros"] }
dotenv = "0.15"
env_logger = { version = "0.10", default-features = false }
futures = "0.3"
log = "0.4"
mongodb = "2.8"
serde = { version = "1", features = ["derive"] }
serde_json = "1"
uuid = { version = "1", features = ["v4"] }
validator = { version = "0.16", features = ["derive"] }
