[package]
name = "lyric_drill"
version = "0.1.0"
edition = "2021"
publish = false

[dependencies]
crossterm = { version = "=0.28.1", features = ["event-stream"] }
ratatui = "=0.29.0"
async-std = "1"
futures = "0.3"
futures-timer = "3"
tokio = { version = "1", features = ["rt-multi-thread", "macros"] }
reqwest = { version = "0.12", default-features = false, features = ["json"] }
serde = { version = "1", features = ["derive"] }
