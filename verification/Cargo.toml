[package]
name = "valentine_backend"
version = "0.1.0"
edition = "2021"
publish = false

[dependencies]
rand = "0.8"
rocket = { version = "0.5", features = ["json"] }
rocket_cors = "0.6"
serde = { version = "1.0", features = ["derive"] }
