[package]
name = "maa_lifecycle"
version = "0.1.0"
edition = "2021"
publish = false

[dependencies]
semver = "1"
regex = "1"
base64 = "0.22"
libloading = "0.8"
serde = { version = "1", features = ["derive"] }
