[package]
name = "flashcards"
version = "0.1.0"
edition = "2021"
publish = false

[dependencies]
anyhow = "1"
chrono = "0.4"
crossterm = "0.28"
rand = "0.8"
ratatui = "0.28"
