[package]
name = "bigfoot_sightings"
version = "0.1.0"
edition = "2021"
publish = false

[dependencies]
csv = "1"
redis = { version = "*", features = ["json"] }
rocket = "0.5"
serde = { version = "1", features = ["derive"] }
serde_json = "1"
