[package]
name = "buzz_media"
version = "0.1.0"
edition = "2021"
publish = false

[dependencies]
bytes = "1"
futures-core = "0.3"
futures-util = "0.3"
rust-s3 = { version = "*", default-features = false, features = ["fail-on-err", "tags", "tokio-rustls-tls"] }
serde = { version = "1", features = ["derive"] }
serde_json = "1"
tokio = { version = "1", features = ["fs", "io-util"] }
tracing = "0.1"
uuid = "1"
