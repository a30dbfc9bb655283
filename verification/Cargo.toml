[package]
name = "whisper_freeflow"
version = "0.1.0"
edition = "2021"
publish = false

[dependencies]
anyhow = "1"
auto-launch = "0.5"
dirs = "6"
num_cpus = "1"
parking_lot = "0.12"
rdev = { version = "0.5", features = ["unstable_grab"] }
reqwest = { version = "0.12", default-features = false, features = ["blocking", "rustls-tls"] }
serde = { version = "1", features = ["derive"] }
serde_json = "1"
tiny-skia = "0.11"
tracing = "0.1"
tracing-subscriber = { version = "0.3", features = ["env-filter"] }
windows-sys = { version = "0.59", features = ["Win32_Foundation", "Win32_Graphics_Gdi", "Win32_System_LibraryLoader", "Win32_System_Threading", "Win32_UI_HiDpi", "Win32_UI_WindowsAndMessaging"] }
