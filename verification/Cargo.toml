[package]
name = "thumbnail_generator"
version = "0.1.0"
edition = "2021"
publish = false

[dependencies]
libloading = "=0.8.9"
windows = { version = "=0.58.0", features = ["implement", "Win32_Foundation", "Win32_Graphics_Gdi", "Win32_System_Com", "Win32_System_SystemServices", "Win32_UI_Shell", "Win32_UI_Shell_PropertiesSystem", "Win32_System_Diagnostics_Debug", "Win32_System_LibraryLoader"] }
windows-core = "=0.58.0"
