[package]
name = "codex-pet-limit-rings"
version = "0.1.0"
edition = "2021"
publish = false

[dependencies]
serde_json = "1"
ureq = "2"
rusqlite = { version = "0.32", features = ["bundled"] }
tiny-skia = "0.11"
windows = { version = "0.58", features = ["Win32_Foundation", "Win32_Graphics_Gdi", "Win32_System_LibraryLoader", "Win32_System_ProcessStatus", "Win32_System_Threading", "Win32_UI_HiDpi", "Win32_UI_Shell", "Win32_UI_WindowsAndMessaging"] }
