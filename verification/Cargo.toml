[package]
name = "scroll_lock_keeper"
version = "0.3.0"
edition = "2021"
publish = false

[dependencies]
serde = { version = "=1.0.229", features = ["derive"] }
serde_json = "=1.0.154"
ureq = "=3.5.1"
windows = { version = "=0.59.0", features = ["Win32_Foundation", "Win32_UI_Input_KeyboardAndMouse", "Win32_UI_Shell", "Win32_UI_WindowsAndMessaging"] }
native-windows-gui = "=1.0.13"
