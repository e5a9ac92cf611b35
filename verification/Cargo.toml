[package]
name = "input_capture"
version = "0.1.0"
edition = "2021"
publish = false

[dependencies]
once_cell = "1"
rdev = "0.5"
serde = { version = "1", features = ["derive"] }
serde_json = "1"
windows = { version = "*", features = ["Win32_Foundation", "Win32_UI_Input", "Win32_UI_WindowsAndMessaging"] }
