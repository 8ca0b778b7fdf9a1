[package]
name = "post_service"
version = "0.1.0"
edition = "2021"
publish = false

[dependencies]
actix-web = { version = "4", default-features = false, features = ["macros"] }
chrono = { version = "0.4", default-features = false, features = ["clock", "serde", "std"] }
dotenv = "0.15"
env_logger = "0.11"
log = "0.4"
serde = { version = "1", features = ["derive"] }
serde_json = "1"
sqlx = { version = "0.8", default-features = false, features = ["postgres", "runtime-tokio", "uuid", "chrono", "derive"] }
uuid = { version = "1", features = ["v4", "serde"] }
