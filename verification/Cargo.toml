[package]
name = "radio"
version = "0.1.0"
edition = "2021"
publish = false

[dependencies]
bytes = "0.5"
dotenv = "0.15"
env_logger = "0.7"
futures = "0.3"
hyper = "0.13"
log = "0.4"
mp3-metadata = "0.3"
serde = { version = "1", features = ["derive"] }
serde_json = "1"
tokio = { version = "0.2", features = ["full"] }
tokio-util = { version = "0.3", features = ["codec"] }
