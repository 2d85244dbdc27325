[package]
name = "gemini"
version = "0.1.0"
edition = "2021"
publish = false

[dependencies]
anyhow = "1"
base64 = "0.22"
chrono = "0.4"
nanoid = "0.4"
ratatui = "0.29"
reqwest = { version = "0.12", features = ["blocking", "json"] }
rusqlite = "0.32"
serde = { version = "1", features = ["derive"] }
serde_json = "1"
