[package]
name = "voice_recorder"
version = "0.1.0"
edition = "2021"
publish = false

[dependencies]
chrono = "0.4"
cpal = "0.15"
hound = "3.5"
nanoid = "0.4"
rodio = "0.20"
serde = { version = "1", features = ["derive"] }
serde_json = "1"
