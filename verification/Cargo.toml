[package]
name = "virtual_display_driver"
version = "0.1.0"
edition = "2021"
publish = false

[dependencies]
anyhow = "1"
log = "0.4"
thiserror = "1"
widestring = "1"
windows = { version = "0.52", features = ["Win32_Foundation"] }
