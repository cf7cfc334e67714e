[package]
name = "qxchat"
version = "0.1.0"
edition = "2021"
publish = false

[dependencies]
serde = { version = "1", features = ["derive"] }
serde_json = "1"
tokio = { version = "1", features = ["net", "io-util", "rt", "rt-multi-thread", "time", "macros"] }
reqwest = { version = "0.12", default-features = false, features = ["json", "socks", "rustls-tls"] }
