[package]
name = "playlist_audio"
version = "0.1.0"
edition = "2021"
publish = false

[dependencies]
urlencoding = "=2.1.3"
serde = { version = "=1.0.229", features = ["derive"] }
serde_json = "=1.0.154"
clap = { version = "=3.2.25", features = ["derive"] }
tokio = { version = "=1.54.1", features = ["full"] }
reqwest = { version = "=0.11.27", features = ["stream"] }
futures-util = "=0.3.34"
indicatif = "0.17"
google-youtube3 = "=2.0.10"
hyper = "=0.14.32"
hyper-rustls = "=0.22.1"
yup-oauth2 = "=5.1.0"
