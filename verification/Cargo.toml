[package]
name = "desktop_snake"
version = "0.1.0"
edition = "2021"
publish = false

[dependencies]
anyhow = "=1.0.104"
bmp = "=0.5.0"
config-file = "=0.2.3"
directories = "=6.0.0"
rand = "=0.8.8"
rdev = "=0.5.3"
serde = { version = "=1.0.229", features = ["derive"] }
windows = { version = "=0.58.0", features = ["Win32_UI_Shell"] }
