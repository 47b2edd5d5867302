[package]
name = "mapky_app_specs"
version = "0.1.0"
edition = "2021"
publish = false

[dependencies]
pubky-app-specs = "*"
url = "2"
serde = { version = "1", features = ["derive"] }
serde_json = "1"
