[package]
name = "mel"
version = "0.1.0"
edition = "2021"
publish = false

[dependencies]
rand = "=0.8.8"
chrono = "=0.4.45"
serenity = "=0.10.10"
songbird = { version = "=0.2.2", default-features = false, features = ["serenity-rustls"] }
lavalink-rs = { version = "=0.7.2", features = ["rustls", "serenity"] }
tokio = { version = "=1.54.1", features = ["full"] }
mysql = "=20.1.0"
isahc = { version = "=1.8.3", features = ["json"] }
serde = { version = "=1.0.229", features = ["derive"] }
serde_json = "=1.0.154"
dotenv = "=0.15.0"
lazy_static = "=1.5.1"
log = "=0.4.35"
