[package]
name = "vacs"
version = "0.1.0"
edition = "2021"
publish = false

[dependencies]
keyboard-types = "=0.8.3"
url = "=2.5.8"
serde = { version = "=1.0.229", features = ["derive"] }
serde_json = "=1.0.154"
toml = "*"
