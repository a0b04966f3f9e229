[package]
name = "better_aim_assist"
version = "0.1.0"
edition = "2021"
publish = false

[dependencies]
crossterm = "*"
hidapi = "*"
rusty-xinput = "*"
serde_json = "*"
vigem-client = "*"
winreg = "*"
windows-sys = { version = "0.59", features = ["Win32_Foundation", "Win32_System_Console", "Win32_System_Threading", "Win32_UI_Input_KeyboardAndMouse", "Win32_Media_Audio"] }
