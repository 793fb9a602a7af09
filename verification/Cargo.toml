[package]
name = "es_cheaper"
version = "0.1.0"
edition = "2021"
publish = false

[dependencies]
actix-identity = "*"
actix-session = { version = "*", features = ["cookie-session"] }
actix-web = { version = "4", default-features = false, features = ["macros", "cookies"] }
argon2 = "0.5"
chrono = "0.4"
clap = { version = "4", features = ["derive"] }
env_logger = "*"
opensearch = { version = "2", default-features = false }
serde = { version = "1", features = ["derive"] }
serde_json = "1"
serde-partial = "*"
uuid = { version = "1", features = ["v4", "serde"] }
