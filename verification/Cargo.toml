[package]
name = "bing_wallpaper"
version = "0.1.0"
edition = "2021"
publish = false

[dependencies]
anyhow = "1"
chrono = "0.4"
chrono-tz = "*"
cron = "*"
reqwest = { version = "0.12", features = ["blocking", "json"] }
serde_json = "1"
tokio = { version = "1", features = ["macros", "rt-multi-thread", "time"] }
winapi = { version = "0.3", features = ["wingdi", "winuser"] }
winreg = "*"
