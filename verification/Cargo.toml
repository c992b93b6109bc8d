[package]
name = "scrabble"
version = "0.1.0"
edition = "2021"
publish = false

[dependencies]
rand = "0.8"
serde = { version = "1", features = ["derive"] }
serde_json = "1"
tokio = { version = "1", features = ["full"] }
crossterm = { version = "0.27", features = ["event-stream"] }
futures = "0.3"
log = "0.4"
env_logger = "0.10"
clap = "4"
