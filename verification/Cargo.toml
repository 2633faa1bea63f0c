[package]
name = "cli_music"
version = "0.1.0"
edition = "2021"
publish = false

[dependencies]
image = { version = "*", default-features = false, features = ["png", "jpeg"] }
crossterm = "*"
ratatui = "*"
reqwest = { version = "*", default-features = false, features = ["blocking", "json"] }
serde = { version = "*", features = ["derive"] }
serde_json = "*"
urlencoding = "*"
color-eyre = "*"
apple-music = "*"
