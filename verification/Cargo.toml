[package]
name = "cyber_tomato"
version = "0.1.0"
edition = "2021"
publish = false

[dependencies]
crossterm = "*"
ratatui = "*"
rodio = { version = "0.21", default-features = false, features = ["playback"] }
