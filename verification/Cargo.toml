[package]
name = "gdyx_study"
version = "0.1.0"
edition = "2021"
publish = false

[dependencies]
chrono = "0.4"
mp4 = "0.14"
reqwest = { version = "0.12", default-features = false, features = ["blocking", "json", "multipart", "cookies", "rustls-tls"] }
serde = { version = "1", features = ["derive"] }
serde_json = "1"
