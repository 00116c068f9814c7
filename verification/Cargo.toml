[package]
name = "media_worker"
version = "0.1.0"
edition = "2021"
publish = false

[dependencies]
serde = { version = "1", features = ["derive"] }
serde_json = { version = "1", features = ["preserve_order"] }
tokio = { version = "1", features = ["sync", "process", "io-util", "rt"] }
uuid = { version = "1", features = ["v4"] }
tauri = { version = "2", default-features = false }
