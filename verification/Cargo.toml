[package]
name = "agrotour_ai"
version = "0.1.0"
edition = "2021"
publish = false

[dependencies]
ollama-rs = { version = "=0.2.6", default-features = false }
serde = { version = "1", features = ["derive"] }
tauri = { version = "2", default-features = false, features = ["wry"] }
