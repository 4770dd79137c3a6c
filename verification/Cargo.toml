[package]
name = "game_generator"
version = "0.1.0"
edition = "2021"
publish = false

[dependencies]
anyhow = "1"
minijinja = "2"
serde = { version = "1", features = ["derive"] }
serde_json = "1"
thiserror = "1"
tokio = { version = "1", features = ["rt-multi-thread", "sync", "time"] }
toml = "0.8"
