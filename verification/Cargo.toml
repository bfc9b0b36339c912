[package]
name = "ani-cli-es"
version = "0.1.0"
edition = "2021"
publish = false

[dependencies]
anyhow = "1"
chrono = "0.4"
color-eyre = "0.6"
crossterm = "0.28"
directories = "5"
lazy_static = "1"
open = "5"
ratatui = "0.29"
reqwest = { version = "0.12", features = ["blocking"] }
scraper = "*"
serde = { version = "1", features = ["derive"] }
serde_json = "1"
