[package]
name = "wastebin_server"
version = "0.1.0"
edition = "2021"
publish = false

[dependencies]
qrcodegen = "1.8"
url = "2"
axum = "0.8"
axum-extra = { version = "0.10", features = ["typed-header", "cookie"] }
serde = { version = "1", features = ["derive"] }
