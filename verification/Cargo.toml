[package]
name = "twotter"
version = "0.1.0"
edition = "2021"
publish = false

[dependencies]
rocket = { version = "*", features = ["json"] }
rocket_cors = "*"
serde = { version = "*", features = ["derive"] }
serde_json = "*"
