[package]
name = "interview_assistant"
version = "0.1.0"
edition = "2021"
publish = false

[dependencies]
anyhow = "1"
chrono = { version = "0.4", default-features = false, features = ["clock"] }
crossbeam-channel = "0.5"
dirs = "5"
egui = { version = "0.29", default-features = false }
fs2 = "0.4"
global-hotkey = { version = "0.6", default-features = false }
libloading = "0.8"
parking_lot = "0.12"
phf = { version = "0.11", features = ["macros"] }
rfd = "0.15"
reqwest = { version = "0.12", default-features = false, features = ["blocking", "json", "rustls-tls"] }
serde = { version = "1", features = ["derive"] }
serde_json = "1"
uuid = { version = "1", features = ["v4"] }
windows-sys = { version = "0.59", features = ["Win32_UI_HiDpi", "Win32_System_LibraryLoader", "Win32_Foundation"] }
zip = { version = "2", default-features = false, features = ["deflate"] }
