[package]
name = "dark_privilege_lib"
version = "0.1.0"
edition = "2021"
publish = false

[dependencies]
bytesize = "=1.3.3"
serde = { version = "=1.0.229", features = ["derive"] }
colored_json = "=5.0.0"
clap = { version = "=4.6.7", features = ["derive"] }
env_logger = "=0.11.11"
log = "=0.4.35"
ctrlc = "=3.5.2"
windows-version = "=0.1.7"
whoami = "=1.6.1"
windows = { version = "0.58", features = ["Win32_Foundation", "Win32_Security", "Win32_System_Memory", "Win32_System_Threading", "Win32_UI_WindowsAndMessaging", "Win32_System_SystemInformation", "Wdk_System_SystemServices"] }
sysinfo = "0.32"
enigo = "0.2"
