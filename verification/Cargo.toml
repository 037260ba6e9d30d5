[package]
name = "tts_bridge"
version = "0.1.0"
edition = "2021"
publish = false

[dependencies]
serde_json = "1"
tauri = { version = "2", default-features = false }
tauri-plugin-fs = { version = "2", default-features = false }
tiny_http = "0.12"
