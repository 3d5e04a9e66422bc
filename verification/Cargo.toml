[package]
name = "process_sessions"
version = "0.1.0"
edition = "2021"
publish = false

[dependencies]
serde = { version = "1", features = ["derive"] }
serde_json = "1"
tokio = { version = "1", features = ["sync", "process", "io-util", "rt", "rt-multi-thread", "time", "macros"] }
tauri = { version = "2", default-features = false }
