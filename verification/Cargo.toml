[package]
name = "akko_hid"
version = "0.1.0"
edition = "2021"
publish = false

[dependencies]
hidapi = { version = "2", default-features = false, features = ["linux-native-basic-udev"] }
log = "0.4"
env_logger = "0.11"
serde = { version = "1", features = ["derive"] }
active-win-pos-rs = "*"
