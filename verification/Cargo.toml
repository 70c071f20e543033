[package]
name = "keymapper"
version = "0.1.0"
edition = "2021"
publish = false

[dependencies]
indexmap = "=2.14.2"
serde = { version = "=1.0.229", features = ["derive"] }
serde_yaml = "=0.9.34"
clap = { version = "=4.6.7", features = ["derive"] }
fs-err = "=3.3.2"
dirs = "=7.0.0"
notify = "=8.2.1"
parking_lot = "=0.12.5"
libc = "=0.2.191"
evdev = "=0.12.2"
uinput = "0.1"
xcb = "1"
active-win-pos-rs = "*"
objc2-core-foundation = "=0.3.2"
objc2-core-graphics = "0.3"
core-foundation = "*"
core-foundation-sys = "*"
core-graphics = "*"
windows-sys = { version = "=0.61.2", features = ["Win32_Foundation", "Win32_Storage_FileSystem", "Win32_System_Diagnostics_ToolHelp", "Win32_System_LibraryLoader", "Win32_UI_Input_KeyboardAndMouse", "Win32_UI_WindowsAndMessaging"] }
