[package]
name = "proven_tui"
version = "0.1.0"
edition = "2021"
publish = false

[dependencies]
proven = "*"
anyhow = "*"
clap = { version = "*", features = ["derive"] }
crossterm = "*"
ratatui = "*"
tracing-subscriber = { version = "*", features = ["env-filter"] }
