[package]
name = "bulletproof"
version = "0.1.0"
edition = "2021"
publish = false

[dependencies]
chrono = "*"
log = "*"
env_logger = "*"
serde = { version = "*", features = ["derive"] }
serde_json = "*"
