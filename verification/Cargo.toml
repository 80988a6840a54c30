[package]
name = "sentri"
version = "0.1.0"
edition = "2021"
publish = false

[dependencies]
rand = "0.8"
html-escape = "0.2"
dashmap = "5"
uuid = { version = "1", features = ["v4"] }
tokio = { version = "1", features = ["full"] }
reqwest = { version = "0.11", default-features = false, features = ["rustls-tls"] }
futures = "0.3"
serde = { version = "1", features = ["derive"] }
serde_json = "1"
anyhow = "1"
trust-dns-resolver = "0.23"
