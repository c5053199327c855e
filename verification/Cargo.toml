[package]
name = "countdown"
version = "0.1.0"
edition = "2021"
publish = false

[dependencies]
chrono = "*"
chrono-tz = "*"
iana-time-zone = "*"
clap = { version = "*", features = ["derive"] }
crossterm = "*"
