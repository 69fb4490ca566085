[package]
name = "marge"
version = "0.1.0"
edition = "2021"
publish = false

[dependencies]
serde_json = "=1.0.151"
serde = { version = "=1.0.229", features = ["derive"] }
reqwest = { version = "=0.13.5", default-features = false, features = ["json"] }
tokio = { version = "=1.53.2", features = ["macros", "rt", "rt-multi-thread", "sync", "time"] }
tokio-util = "=0.7.19"
crossterm = { version = "=0.29.0", features = ["event-stream"] }
ratatui = "=0.30.2"
futures = "=0.3.34"
clap = { version = "=4.6.7", features = ["cargo"] }
directories = "=6.0.0"
color-eyre = "=0.6.5"
tui-textarea = "=0.6.1"
