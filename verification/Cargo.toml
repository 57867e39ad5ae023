[package]
name = "post_office"
version = "0.1.0"
edition = "2021"
publish = false

[dependencies]
chrono = { version = "0.4", features = ["serde"] }
rand = "0.8"
redis = { version = "0.25", features = ["tokio-comp"] }
rocket = { version = "0.5", features = ["json", "secrets"] }
rocket_ws = "0.1"
serde = { version = "1", features = ["derive"] }
serde_json = "1"
uuid = { version = "1", features = ["v4"] }
