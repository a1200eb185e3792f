[package]
name = "gitws"
version = "0.1.0"
edition = "2021"
publish = false

[dependencies]
git2 = { version = "*", default-features = false }
chrono = "*"
serde = { version = "*", features = ["derive"] }
serde_yaml = "*"
crossterm = "*"
ratatui = "*"
