[package]
name = "fpui"
version = "0.1.0"
edition = "2021"
publish = false

[dependencies]
serde = { version = "1", features = ["derive"] }
serde_json = "1"
native-windows-gui = "1"
winapi = { version = "0.3", features = ["minwindef", "windef", "winerror", "dwmapi", "uxtheme", "wingdi", "winreg", "winuser"] }
