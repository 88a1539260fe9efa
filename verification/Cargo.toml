[package]
name = "mpd_tui"
version = "0.1.0"
edition = "2021"
publish = false

[dependencies]
anyhow = "1"
crossterm = "*"
mpd = "*"
unicode-width = "*"
