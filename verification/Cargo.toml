[package]
name = "cloudinary"
version = "0.1.0"
edition = "2021"
publish = false

[dependencies]
anyhow = "*"
chrono = "*"
reqwest = { version = "*", default-features = false, features = ["multipart", "stream"] }
serde = { version = "*", features = ["derive"] }
serde_json = "*"
sha1 = "*"
tokio = { version = "*", features = ["fs"] }
tokio-util = { version = "*", features = ["codec"] }
url = "*"
