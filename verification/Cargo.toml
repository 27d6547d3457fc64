[package]
name = "application_backend"
version = "0.1.0"
edition = "2021"
publish = false

[dependencies]
dotenv = "*"
env_logger = "*"
log = "*"
poem = { version = "*", features = ["static-files"] }
serde = { version = "*", features = ["derive"] }
sqlx = { version = "*", default-features = false, features = ["runtime-tokio", "sqlite"] }
thiserror = "*"
tokio = { version = "*", features = ["macros", "rt-multi-thread"] }
