[package]
name = "bluepresence"
version = "0.1.0"
edition = "2021"
publish = false

[dependencies]
discord-rich-presence = "*"
serde = { version = "*", features = ["derive"] }
serde_json = "*"
sysinfo = "*"
single-instance = "*"
tray-icon = "*"
image = { version = "*", default-features = false, features = ["ico", "png"] }
eframe = { version = "*", default-features = false, features = ["default_fonts", "glow", "x11"] }
