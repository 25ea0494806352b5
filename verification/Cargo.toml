[package]
name = "books_api"
version = "0.1.0"
edition = "2021"
publish = false

[dependencies]
uuid = { version = "=1.27.0", features = ["v4", "serde"] }
url = "=2.5.8"
serde = { version = "1", features = ["derive"] }
actix-web = "4"
actix-cors = "0.7"
sqlx = { version = "0.8", default-features = false, features = ["runtime-tokio", "postgres", "uuid"] }
dotenv = "0.15"
env_logger = "0.11"
log = "0.4"
