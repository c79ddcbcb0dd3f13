[package]
name = "shorts_generator"
version = "0.1.0"
edition = "2021"
publish = false

[dependencies]
anyhow = "1"
chrono = "0.4"
clap = { version = "4", features = ["derive"] }
env_logger = "*"
ffmpeg-next = "*"
log = "0.4"
serde = { version = "1", features = ["derive"] }
serde_json = "1"
