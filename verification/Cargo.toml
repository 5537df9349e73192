[package]
name = "tomato"
version = "0.1.0"
edition = "2021"
publish = false

[dependencies]
anyhow = "1"
clap = { version = "4", features = ["derive"] }
crossterm = "0.25"
notify-rust = "4"
terminal-fonts = "*"
tui = "0.19"
