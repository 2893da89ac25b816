[package]
name = "ratherapia"
version = "0.1.0"
edition = "2021"
publish = false

[dependencies]
anyhow = "1"
bevy_ecs = { version = "0.14", default-features = false }
cpal = "0.15"
crossterm = "0.28"
rand = "0.8"
ratatui = "0.29"
