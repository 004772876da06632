[package]
name = "skills_hub"
version = "0.1.0"
edition = "2021"
publish = false

[dependencies]
rusqlite = "0.32"
sha2 = "0.10"
uuid = { version = "1", features = ["v4"] }
serde = { version = "1", features = ["derive"] }
serde_json = "1"
tracing = "0.1"
tracing-subscriber = { version = "0.3", features = ["json"] }
tracing-appender = "0.2"
