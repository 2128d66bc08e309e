[package]
name = "minigames"
version = "0.1.0"
edition = "2021"
publish = false

[dependencies]
crossterm = "0.29"
noise = "0.9"
rand = "0.9"
ratatui = "0.30"
rodio = "0.21"
