[package]
name = "sr_plot_rs"
version = "0.1.0"
edition = "2021"
publish = false

[dependencies]
image = "=0.25.10"
unicode-width = "=0.2.2"
log = "=0.4.34"
colored = "=3.1.1"
simple_logger = "=5.2.0"
time = "*"
sysinfo = "=0.39.6"
enigo = "=0.6.1"
opencv = "=0.101.0"
windows = { version = "=0.61.3", features = ["Win32_Foundation", "Win32_Graphics_Dwm", "Win32_Graphics_Gdi", "Win32_System_Threading", "Win32_UI_WindowsAndMessaging"] }
