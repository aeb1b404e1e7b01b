[package]
name = "via-cli"
version = "0.1.0"
edition = "2021"
publish = false

[dependencies]
clap = { version = "=4.6.7", features = ["derive"] }
clap-num = "=1.2.0"
cli-table = "=0.5.0"
hidapi = { version = "=2.6.7", default-features = false, features = ["linux-native-basic-udev"] }
qmk-via-api = { version = "=0.10.1", default-features = false }
