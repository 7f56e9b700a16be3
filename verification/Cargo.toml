[package]
name = "mywallpaper_desktop"
version = "0.1.0"
edition = "2021"
publish = false

[dependencies]
url = "2.5.8"
serde = { version = "1", features = ["derive"] }
thiserror = "2"
log = "0.4"
os_info = "3"
discord-rich-presence = "0.2"
typeshare = "1"
