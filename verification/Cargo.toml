[package]
name = "sleeptool_rs"
version = "0.1.0"
edition = "2021"
publish = false

[dependencies]
anyhow = "=1.0.104"
serde = { version = "=1.0.229", features = ["derive"] }
thiserror = "=2.0.21"
toml = "=1.2.1"
windows = { version = "=0.58.0", features = ["Win32_Foundation", "Win32_Security", "Win32_UI_WindowsAndMessaging", "Win32_UI_Shell", "Win32_Graphics_Gdi", "Win32_System_Performance", "Win32_System_ProcessStatus", "Win32_System_Threading", "Win32_UI_Input_KeyboardAndMouse", "Win32_System_SystemInformation", "Win32_System_Registry", "Win32_System_Power", "Win32_System_LibraryLoader", "Win32_Media_Audio", "Win32_Media_Audio_Endpoints", "Win32_System_Com"] }
slint = { version = "=1.18.1", default-features = false, features = ["std", "compat-1-2"] }
