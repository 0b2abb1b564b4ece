[package]
name = "raze"
version = "0.1.0"
edition = "2021"
publish = false

[dependencies]
sha1 = "0.6"
base64 = "0.13"
url = "2"
serde = { version = "1", features = ["derive"] }
serde_json = "1"
reqwest = { version = "0.11", default-features = false, features = ["json", "stream"] }
tokio = { version = "1", features = ["fs", "io-util", "time", "rt"] }
tokio-util = { version = "0.7", features = ["codec"] }
futures = "0.3"
pin-project = "1"
bytes = "1"
