[package]
name = "calendario_app"
version = "0.1.0"
edition = "2021"
publish = false

[dependencies]
sha2 = "0.10"
base64 = "0.22"
rand = "0.8"
chrono = "0.4"
url = "2"
urlencoding = "2"
serde = { version = "1", features = ["derive"] }
serde_json = "1"
reqwest = { version = "0.12", default-features = false, features = ["rustls-tls", "json", "blocking"] }
rusqlite = { version = "0.31", features = ["bundled"] }
keyring = "3"
tokio = { version = "1", features = ["rt-multi-thread"] }
open = "5"
dotenvy = "0.15"
