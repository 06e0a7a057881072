[package]
name = "ncm_api"
version = "0.1.0"
edition = "2021"
publish = false

[dependencies]
reqwest = { version = "0.12", default-features = false, features = ["rustls-tls", "socks"] }
rand = "0.9"
serde_json = "1"
