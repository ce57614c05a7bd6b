[package]
name = "user_service"
version = "0.1.0"
edition = "2021"
publish = false

[dependencies]
serde = { version = "1", features = ["derive"] }
serde_json = "1"
actix-web = { version = "4", default-features = false, features = ["macros"] }
redis = { version = "0.23", features = ["tokio-comp"] }
tokio = { version = "1", features = ["sync", "macros", "rt"] }
env_logger = "0.10"
log = "0.4"
rustls = "0.21"
rustls-pemfile = "1"
