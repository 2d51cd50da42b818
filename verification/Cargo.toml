[package]
name = "g27_led_bridge"
version = "2.0.0"
edition = "2021"
publish = false

[dependencies]
clap = { version = "=4.6.7", features = ["derive"] }
dirs = "=7.0.0"
hidapi = { version = "=2.6.7", default-features = false, features = ["linux-native-basic-udev"] }
serde = { version = "=1.0.229", features = ["derive"] }
toml = "=1.1.8"
tray-icon = "=0.26.1"
winapi = { version = "=0.3.9", features = ["winuser", "wincon", "shellapi"] }
winit = "=0.29.15"
