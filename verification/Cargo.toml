[package]
name = "fastty"
version = "0.1.0"
edition = "2021"
publish = false

[dependencies]
alacritty_terminal = "*"
anyhow = "*"
dirs = "*"
git2 = { version = "*", default-features = false }
notify-rust = "*"
