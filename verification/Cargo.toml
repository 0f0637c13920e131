[package]
name = "steno"
version = "0.1.0"
edition = "2021"
publish = false

[dependencies]
ogg = "0.9"
opus = "0.3"
cpal = "0.15"
chrono = "0.4"
dirs = "5"
serde = { version = "1", features = ["derive"] }
pipewire = "0.8"
screencapturekit = "*"
