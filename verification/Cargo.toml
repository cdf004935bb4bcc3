[package]
name = "resourcespace_client"
version = "0.5.0"
edition = "2021"
publish = false

[dependencies]
hex = "0.4"
sha2 = "0.10"
serde_qs = "*"
serde_json = "1"
url = "2"
secrecy = "0.10"
serde = { version = "1", features = ["derive"] }
serde_with = "3"
thiserror = "2"
validator = { version = "*", features = ["derive"] }
reqwest = { version = "0.12", default-features = false, features = ["rustls-tls", "multipart", "stream"] }
