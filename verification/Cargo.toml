[package]
name = "session_watch"
version = "0.1.0"
edition = "2021"
publish = false

[dependencies]
anyhow = "1"
tokio = { version = "1", features = ["sync"] }
tracing = "0.1"
objc = "0.2"
cocoa = "0.26"
windows = { version = "0.52", features = ["Win32_Foundation", "Win32_System_RemoteDesktop", "Win32_UI_WindowsAndMessaging"] }
