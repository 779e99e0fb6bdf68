[package]
name = "value_observers"
version = "0.1.0"
edition = "2021"

[dependencies]
ahash = "0.8"
serde = { version = "1.0", features = ["derive"] }
serde_json = "1.0"
