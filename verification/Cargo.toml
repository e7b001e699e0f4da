[package]
name = "peri-tui"
version = "0.1.0"
edition = "2021"
publish = false

[dependencies]
unicode-width = "*"
chrono = "0.4"
serde_json = "1"
