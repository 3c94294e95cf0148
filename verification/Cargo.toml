[package]
name = "voice_to_text"
version = "0.1.0"
edition = "2021"
publish = false

[dependencies]
arboard = "*"
chrono = "*"
cpal = "*"
crossbeam-channel = "*"
evdev = "*"
global-hotkey = "*"
serde = { version = "*", features = ["derive"] }
serde_json = "*"
ten-vad-rs = "*"
toml = "*"
whisper-rs = "*"
zbus = "*"
