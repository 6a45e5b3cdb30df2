[package]
name = "route_guide"
version = "0.1.0"
edition = "2021"
publish = false

[dependencies]
anyhow = "*"
clap = { version = "*", features = ["derive"] }
crossterm = "*"
once_cell = "*"
ratatui = "*"
serde = { version = "*", features = ["derive"] }
