[package]
name = "cp211x_uart"
version = "0.2.2"
edition = "2021"
publish = false

[dependencies]
error-chain = { version = "0.12", default-features = false }
hidapi = { version = "2", default-features = false, features = ["linux-native-basic-udev"] }
