[package]
name = "i3s"
version = "0.1.0"
edition = "2021"
publish = false

[dependencies]
flate2 = "1"
reqwest = "0.12"
serde = { version = "1", features = ["derive"] }
serde_json = "1"
url = "2"
zip = "2"
