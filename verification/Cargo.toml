[package]
name = "game_saver"
version = "0.1.0"
edition = "2021"
publish = false

[dependencies]
anyhow = "1"
better-panic = "*"
chrono = "0.4"
clap = { version = "4", features = ["derive"] }
crossbeam-channel = "0.5"
crossterm = "*"
ctrlc = "3"
dirs = "*"
flexi_logger = "*"
log = "0.4"
ratatui = "*"
serde = { version = "1", features = ["derive"] }
serde_derive = "1"
shellexpand = "*"
tokio = { version = "1", features = ["rt-multi-thread", "macros"] }
toml = "*"
watchexec = "*"
watchexec-events = "*"
watchexec-filterer-globset = "*"
