[package]
name = "user_cache"
version = "0.1.0"
edition = "2021"
publish = false

[dependencies]
actix-web = "*"
dotenv = "*"
env_logger = "*"
log = "*"
sqlx = { version = "*", default-features = false, features = ["runtime-tokio", "postgres"] }
