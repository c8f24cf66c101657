[package]
name = "midikeys"
version = "0.1.0"
edition = "2021"
publish = false

[dependencies]
toml = "*"
ctrlc = "*"
dialoguer = { version = "*", features = ["fuzzy-select"] }
miette = "*"
thiserror = "*"
windows = { version = "*", features = ["Devices_Enumeration", "Devices_Midi", "Foundation", "Foundation_Collections", "Win32_Foundation", "Win32_UI_Input_KeyboardAndMouse", "Win32_UI_WindowsAndMessaging"] }
