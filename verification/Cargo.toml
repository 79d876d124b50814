[package]
name = "solar_grabber"
version = "0.1.0"
edition = "2021"
publish = false

[dependencies]
chrono = "0.4"
color-eyre = "0.6"
md-5 = "0.10"
reqwest = { version = "0.11", features = ["cookies", "json"] }
rocket = { version = "0.5", features = ["json"] }
serde = { version = "1", features = ["derive"] }
thiserror = "1"
url = "2"
