[package]
name = "winresize"
version = "0.1.0"
edition = "2021"
publish = false

[dependencies]
eframe = { version = "0.36.2", default-features = false, features = ["glow", "x11"] }
egui = { version = "0.36.2", default-features = false }
env_logger = { version = "0.11.11", default-features = false }
zip = { version = "8.6.0", default-features = false, features = ["deflate"] }
windows = { version = "0.62.2", features = ["Win32_Foundation", "Win32_UI_WindowsAndMessaging"] }
