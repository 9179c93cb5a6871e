[package]
name = "jukebox"
version = "0.1.0"
edition = "2021"
publish = false

[dependencies]
rand = "0.8"
dashmap = "*"
redis = { version = "*", features = ["tokio-comp"] }
tokio = { version = "*", features = ["full"] }
serde = { version = "*", features = ["derive"] }
serde_json = "*"
