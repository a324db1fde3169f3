[package]
name = "herdr"
version = "0.1.0"
edition = "2021"
publish = false

[dependencies]
ratatui = "0.29"
crossterm = "0.28"
serde = { version = "1", features = ["derive"] }
schemars = "0.8"
unicode-width = "0.2"
