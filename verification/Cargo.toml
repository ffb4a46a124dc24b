[package]
name = "lang_switch_indicator"
version = "0.1.0"
edition = "2021"
publish = false

[dependencies]
windows = { version = "0.62", features = ["Win32_Foundation", "Win32_Graphics_Gdi", "Win32_System_LibraryLoader", "Win32_UI_Input_KeyboardAndMouse", "Win32_UI_Shell", "Win32_UI_WindowsAndMessaging"] }
