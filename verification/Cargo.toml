[package]
name = "google_geocoding"
version = "0.1.0"
edition = "2021"
publish = false

[dependencies]
itertools = "0.14"
serde_urlencoded = "0.7"
url = "2"
serde = { version = "1", features = ["derive"] }
serde_json = "1"
nav-types = "*"
reqwest = "0.12"
tokio = { version = "1", features = ["rt", "net", "time"] }
