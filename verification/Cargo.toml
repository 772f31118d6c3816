[package]
name = "mirror_remote"
version = "0.1.0"
edition = "2021"
publish = false

[dependencies]
adaptive_backoff = "*"
serde = { version = "*", features = ["derive"] }
tokio = { version = "*", features = ["rt", "net", "time", "io-util", "macros", "sync"] }
url = "*"
