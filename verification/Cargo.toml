[package]
name = "session_auth"
version = "0.1.0"
edition = "2021"
publish = false

[dependencies]
libreauth = { version = "=0.18.1", features = ["oath-uri"] }
uuid = { version = "=1.27.0", features = ["v4"] }
validator = "=0.21.0"
tide = "=0.16.0"
async-std = { version = "=1.13.2", features = ["attributes"] }
async-trait = "=0.1.92"
handlebars = "=6.4.4"
serde = { version = "=1.0.229", features = ["derive"] }
serde_json = "=1.0.151"
qrcode = "=0.14.1"
