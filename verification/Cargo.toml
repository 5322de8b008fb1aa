[package]
name = "desknote"
version = "0.1.0"
edition = "2021"
publish = false

[dependencies]
log = "0.4"
window-vibrancy = "*"
windows = { version = "0.52", features = ["Win32_Foundation", "Win32_UI_WindowsAndMessaging"] }
