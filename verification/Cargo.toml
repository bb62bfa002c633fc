[package]
name = "paseto_auth"
version = "0.1.0"
edition = "2021"
publish = false

[dependencies]
pasetors = "*"
chrono = "0.4"
ed25519-compact = "*"
serde_json = "1"
serde = { version = "1", features = ["derive"] }
axum = "*"
tokio = { version = "1", features = ["macros", "rt-multi-thread", "net"] }
dotenv = "*"
env_logger = "*"
log = "0.4"
