[package]
name = "vimit"
version = "0.1.0"
edition = "2021"
publish = false

[dependencies]
rand = "0.8"
self_update = { version = "0.41", default-features = false, features = ["rustls"] }
serde = { version = "1", features = ["derive"] }
serde_json = "1"
toml = "0.8"
chrono = "0.4"
reqwest = { version = "0.12", default-features = false, features = ["blocking", "json", "rustls-tls"] }
ratatui = "0.29"
crossterm = "0.28"
redb = "2"
