[package]
name = "seventv_api"
version = "0.1.0"
edition = "2021"
publish = false

[dependencies]
url = "2"
urlencoding = "2"
cookie = { version = "0.18", features = ["percent-encode"] }
chrono = "0.4"
spin = "0.9"
serde = { version = "1", features = ["derive"] }
serde_json = "1"
axum = "0.7"
tower = "0.4"
hyper = "1"
futures = "0.3"
anyhow = "1"
