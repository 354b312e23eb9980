[package]
name = "buzkaaclicker_backend"
version = "0.1.0"
edition = "2021"
publish = false

[dependencies]
scraper = "*"
chrono = "*"
actix-web = "*"
actix-files = "*"
awc = "*"
actix-extensible-rate-limit = "*"
sqlx = { version = "*", default-features = false, features = ["sqlite", "runtime-tokio"] }
futures = "*"
log = "*"
env_logger = "*"
anyhow = "*"
