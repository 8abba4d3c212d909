[package]
name = "click_capture"
version = "0.1.0"
edition = "2021"
publish = false

[dependencies]
rdev = "*"
serde = { version = "*", features = ["derive"] }
serde_json = "*"
