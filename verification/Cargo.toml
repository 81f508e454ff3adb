[package]
name = "packager_sign"
version = "0.1.0"
edition = "2021"
publish = false

[dependencies]
base64 = "0.22"
dunce = "1"
minisign = "0.7"
serde = { version = "1", features = ["derive"] }
tracing = "0.1"
