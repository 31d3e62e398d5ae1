[package]
name = "mouse_switcher"
version = "0.1.0"
edition = "2021"
publish = false

[dependencies]
serde = { version = "1", features = ["derive"] }
toml = "*"
dirs = "*"
global-hotkey = "*"
tray-icon = "*"
crossbeam-channel = "*"
windows = { version = "*", features = ["Win32_Foundation", "Win32_UI_WindowsAndMessaging"] }
