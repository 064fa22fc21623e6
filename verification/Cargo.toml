[package]
name = "wot_forms"
version = "0.1.0"
edition = "2021"
publish = false

[dependencies]
serde = { version = "1", features = ["derive"] }
serde_with = "3"

[dev-dependencies]
serde_json = "1"
