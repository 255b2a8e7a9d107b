[package]
name = "foxtive-ntex"
version = "0.1.0"
edition = "2021"
publish = false

[dependencies]
chrono = "0.4"
foxtive = { version = "0.26", default-features = false }
futures = "0.3"
jsonwebtoken = "9"
log = "0.4"
ntex = { version = "2", default-features = false, features = ["tokio"] }
ntex-cors = "2"
ntex-files = "2"
ntex-multipart = "2"
serde = { version = "1", features = ["derive"] }
serde_json = "1"
thiserror = "2"
tokio = { version = "1", features = ["fs", "io-util", "rt", "macros"] }
tracing = "0.1"
uuid = { version = "1", features = ["v4", "serde"] }
validator = { version = "0.20", features = ["derive"] }
