[package]
name = "backend-conversations"
version = "0.1.0"
edition = "2021"
publish = false

[dependencies]
uuid = { version = "1", features = ["v4", "serde"] }
chrono = { version = "0.4", default-features = false, features = ["std", "serde"] }
serde = { version = "1", features = ["derive"] }
serde_json = "1"
thiserror = "1"
jsonwebtoken = "9"
reqwest = { version = "0.12", default-features = false, features = ["json", "rustls-tls"] }
actix-web = { version = "4", default-features = false, features = ["macros"] }
actix-web-httpauth = "0.8"
actix-cors = "0.7"
sqlx = { version = "0.8", default-features = false, features = ["runtime-tokio", "postgres", "uuid", "chrono", "derive"] }
aws-config = "1"
aws-sdk-s3 = "1"
tempfile = "3"
dotenv = "0.15"
env_logger = { version = "0.11", default-features = false }
