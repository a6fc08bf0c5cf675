[package]
name = "game_overlay"
version = "0.1.0"
edition = "2021"
publish = false

[dependencies]
serde = { version = "1", features = ["derive"] }
serde_json = "1"
steamid-ng = "*"
uuid = { version = "1", features = ["v4"] }
jwt = "0.16"
hmac = "0.12"
sha2 = "0.10"
axum = { version = "0.7", features = ["ws"] }
tokio = { version = "1", features = ["full"] }
tokio-stream = "0.1"
futures-util = "0.3"
reqwest = { version = "0.12", default-features = false, features = ["json", "rustls-tls"] }
serde_qs = "0.13"
log = "0.4"
pretty_env_logger = "0.5"
once_cell = "1"
handlebars = "5"
