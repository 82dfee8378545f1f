[package]
name = "turbocommit"
version = "0.1.0"
edition = "2021"
publish = false

[dependencies]
anyhow = "=1.0.104"
colored = "=3.1.1"
crates_io_api = "=0.12.0"
crossterm = "=0.29.0"
edit = "=0.1.5"
futures = "=0.3.34"
git2 = "=0.21.0"
home = "=0.5.12"
inquire = "=0.9.4"
reqwest = { version = "=0.12.28", features = ["json", "stream"] }
reqwest-eventsource = "=0.6.0"
serde = { version = "=1.0.229", features = ["derive"] }
serde_json = "=1.0.151"
serde_yaml = "=0.9.34"
terminal-supports-emoji = "=0.1.3"
tiktoken-rs = "=0.12.1"
tokio = { version = "=1.53.2", features = ["full"] }
unicode-segmentation = "=1.13.3"
