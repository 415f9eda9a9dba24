[package]
name = "keep_screen"
version = "0.1.0"
edition = "2021"
publish = false

[dependencies]
crossbeam-channel = "*"
serde = "*"
serde_json = "*"
sys-locale = "*"
trayicon = "*"
winapi = { version = "*", features = ["winuser", "synchapi", "winbase", "winnt", "errhandlingapi", "handleapi", "libloaderapi", "winerror", "windef", "minwindef"] }
