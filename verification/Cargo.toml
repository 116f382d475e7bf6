[package]
name = "ftl"
version = "0.1.0"
edition = "2021"
publish = false

[dependencies]
serde = { version = "=1.0.229", features = ["derive"] }
serde_json = "=1.0.154"
semver = "=1.0.28"
toml = "=1.1.8"
toml_edit = "=0.25.18"
base64 = "0.22"
handlebars = "6"
chrono = { version = "0.4", default-features = false, features = ["alloc", "std", "clock"] }
