[package]
name = "idle_sleep"
version = "0.1.0"
edition = "2021"
publish = false

[dependencies]
tauri = { version = "*", default-features = false, features = ["tray-icon"] }
tauri-plugin-autostart = "*"
tokio = { version = "*", features = ["rt", "rt-multi-thread", "time", "macros"] }
windows-sys = { version = "*", features = ["Win32_System_Power", "Win32_System_SystemInformation", "Win32_UI_Input_KeyboardAndMouse"] }
