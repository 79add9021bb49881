[package]
name = "magnet"
version = "0.1.0"
edition = "2021"
publish = false

[dependencies]
aes-gcm = "*"
base64 = "*"
serde_json = "*"
dirs = "*"
rusqlite = { version = "*", features = ["bundled"] }
libloading = "*"
chrono = "*"
winapi = { version = "0.3", features = ["dpapi", "winbase", "wincrypt"] }
