[package]
name = "backmeup"
version = "0.1.0"
edition = "2021"
publish = false

[dependencies]
toml = "=0.8.23"
serde = { version = "=1.0.229", features = ["derive"] }
walkdir = "=2.5.0"
fs_extra = "=1.3.0"
chrono = { version = "=0.4.45", default-features = false, features = ["clock"] }
rdev = "=0.5.3"
sysinfo = "=0.31.4"
x11 = { version = "=2.21.0", features = ["xlib"] }
service-manager = "0.7"
windows-service = "0.7"
windows-sys = { version = "0.52", features = ["Win32_Foundation", "Win32_System_RemoteDesktop"] }
windows = { version = "=0.57.0", features = ["Win32_UI_WindowsAndMessaging"] }
core-graphics = "0.22"
