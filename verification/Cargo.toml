[package]
name = "tagfetch"
version = "0.1.0"
edition = "2021"
publish = false

[dependencies]
csv = "1"
leaky-bucket = "1"
reqwest = { version = "0.12", default-features = false, features = ["blocking", "json", "rustls-tls"] }
serde = { version = "1", features = ["derive"] }
tokio = { version = "1", features = ["rt", "time"] }
