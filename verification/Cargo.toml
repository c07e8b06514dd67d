[package]
name = "gemini_rs"
version = "0.1.0"
edition = "2021"
publish = false

[dependencies]
serde_json = "*"
deadqueue = "*"
serde = { version = "*", features = ["derive"] }
serde_with = { version = "*", features = ["base64"] }
reqwest = { version = "*", default-features = false, features = ["json", "stream", "rustls-tls"] }
reqwest-eventsource = "*"
gcp_auth = "*"
tokio = { version = "*", features = ["rt-multi-thread", "macros"] }
tokio-stream = "*"
tracing = "*"
