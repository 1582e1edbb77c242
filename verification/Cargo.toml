[package]
name = "vivarium"
version = "0.1.0"
edition = "2021"
publish = false

[dependencies]
serde_json = "1"
toml = "0.8"
rustix = { version = "1", features = ["process"] }
