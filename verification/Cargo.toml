[package]
name = "countdown_engine"
version = "0.1.0"
edition = "2021"
publish = false

[dependencies]
kira = { version = "0.9", default-features = false, features = ["cpal", "mp3"] }
serde = { version = "1", features = ["derive"] }
serde_json = "1"
