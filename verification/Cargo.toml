[package]
name = "omniform"
version = "0.1.0"
edition = "2021"
publish = false

[dependencies]
dirs = "5"
xz2 = "0.1"
tar = "0.4"
zip = { version = "2", default-features = false, features = ["deflate"] }
serde = { version = "1", features = ["derive"] }
serde_json = "1"
reqwest = { version = "0.12", default-features = false, features = ["json", "rustls-tls"] }
tokio = { version = "1", features = ["process", "io-util", "sync", "rt", "macros"] }
