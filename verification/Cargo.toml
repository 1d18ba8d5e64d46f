[package]
name = "murmel"
version = "0.1.0"
edition = "2021"
publish = false

[dependencies]
anyhow = "*"
crossbeam = "*"
crossbeam-channel = "*"
crossterm = "*"
log = "*"
midir = "*"
serde = { version = "*", features = ["derive"] }
spin_sleep = "*"
thread-priority = "*"
