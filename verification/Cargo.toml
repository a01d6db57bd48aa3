[package]
name = "termplayer"
version = "0.1.0"
edition = "2021"
publish = false

[dependencies]
lofty = "0.22"
ratatui = "0.29"
rodio = "0.20"
walkdir = "2"
