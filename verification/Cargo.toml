[package]
name = "weather_notify"
version = "0.1.0"
edition = "2021"
publish = false

[dependencies]
toml = "0.8"
serde_json = "1"
reqwest = { version = "0.12", features = ["blocking"] }
