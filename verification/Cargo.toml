[package]
name = "dynth"
version = "0.1.0"
edition = "2021"
publish = false

[dependencies]
anyhow = "1"
atomic_float = "1.1"
crossbeam-channel = "0.5"
crossterm = "0.29"
ratatui = "0.30"
serde = { version = "1", features = ["derive"] }
toml = "0.8"
