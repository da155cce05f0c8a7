[package]
name = "desktop_attach"
version = "0.1.0"
edition = "2021"
publish = false

[dependencies]
windows = { version = "0.60", features = ["Win32_Foundation", "Win32_UI_WindowsAndMessaging"] }
