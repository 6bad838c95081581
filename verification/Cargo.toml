[package]
name = "watch_presence"
version = "0.1.0"
edition = "2021"
publish = false

[dependencies]
serde = { version = "1", features = ["derive"] }
serde_json = "1"
reqwest = { version = "0.12", default-features = false, features = ["json", "rustls-tls"] }
discord-rich-presence = "*"
tokio = { version = "1", features = ["time"] }
