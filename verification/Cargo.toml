[package]
name = "default_backend"
version = "0.1.0"
edition = "2021"
publish = false

[dependencies]
base64 = "=0.13.1"
chrono = { version = "=0.4.45", features = ["serde"] }
rocket = { version = "=0.5.2", default-features = false }
rocket_dyn_templates = { version = "=0.2.0", features = ["tera"] }
serde = { version = "=1.0.229", features = ["derive"] }
serde_cbor = "=0.11.2"
serde_json = "=1.0.154"
