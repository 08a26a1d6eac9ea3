[package]
name = "wifi_qr"
version = "0.1.0"
edition = "2021"
publish = false

[dependencies]
uuid = { version = "1", features = ["v4"] }
serde = { version = "1", features = ["derive"] }
argh = "0.1"
zbus = "*"
qrcode_scanner = "*"
