[package]
name = "print_core"
version = "0.1.0"
edition = "2021"
publish = false

[dependencies]
base64 = "0.22"
uuid = { version = "1", features = ["v4"] }
headless_chrome = "1"
serde = { version = "1", features = ["derive"] }
