[package]
name = "notify_relay"
version = "0.1.0"
edition = "2021"
publish = false

[dependencies]
anyhow = "1"
egg-mode = "0.16"
futures = "0.3"
log = "0.4"
num-format = "0.4"
pretty_env_logger = "0.4"
reqwest = "0.11"
serde = { version = "1", features = ["derive"] }
serde_json = "1"
serenity = "0.10"
tokio = { version = "1", features = ["full"] }
