[package]
name = "ai_chat"
version = "0.1.0"
edition = "2021"
publish = false

[dependencies]
serde_json = "*"
reqwest = { version = "*", default-features = false, features = ["rustls-tls", "stream"] }
tokio = { version = "*", features = ["rt-multi-thread", "macros", "time"] }
futures = "*"
ratatui = "*"
crossterm = "*"
chrono = "*"
dotenv = "*"
