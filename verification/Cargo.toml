[package]
name = "launch_handoff"
version = "0.1.0"
edition = "2021"
publish = false

[dependencies]
tauri = { version = "2", default-features = false, features = ["wry"] }
tauri-plugin-fs = "2"
