[package]
name = "audio_features"
version = "0.1.0"
edition = "2021"
publish = false

[dependencies]
serde_json = "1"
ringbuf = "0.2"
websocket = { version = "0.26", default-features = false, features = ["sync"] }
cpal = "0.13"
nannou = "0.15"
