[package]
name = "lightcapture"
version = "0.1.0"
edition = "2021"
publish = false

[dependencies]
clap = { version = "4", features = ["derive"] }
ctrlc = "3"
directories = "5"
global-hotkey = "*"
rfd = "*"
serde = { version = "1", features = ["derive"] }
serde_json = "1"
single-instance = "*"
thiserror = "1"
tray-icon = "*"
windows-capture = "*"
