[package]
name = "raven"
version = "0.1.0"
edition = "2021"
publish = false

[dependencies]
clap = { version = "4", features = ["derive"] }
crossterm = "0.28"
env_logger = "0.11"
log = "0.4"
ratatui = { version = "0.29", features = ["unstable-widget-ref"] }
rusqlite = { version = "0.32", features = ["bundled"] }
serde = { version = "1", features = ["derive"] }
time = "0.3"
toml = "0.8"
typed-builder = "0.20"
