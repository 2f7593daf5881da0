[package]
name = "terminal_rat"
version = "0.1.0"
edition = "2021"
publish = false

[dependencies]
crossterm = "=0.29.0"
ratatui = "=0.30.2"
rodio = { version = "=0.22.2", default-features = false, features = ["playback"] }
