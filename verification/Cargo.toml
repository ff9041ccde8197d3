[package]
name = "bluetooth_tray"
version = "0.1.0"
edition = "2021"
publish = false

[dependencies]
gtk = "*"
tray-item = { version = "*", features = ["libappindicator"] }
