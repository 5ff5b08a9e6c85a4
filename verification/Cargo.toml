[package]
name = "mail_fetch"
version = "0.1.0"
edition = "2021"
publish = false

[dependencies]
anyhow = "=1.0.104"
base64 = "=0.22.1"
chrono = "=0.4.45"
once_cell = "=1.21.4"
reqwest = { version = "=0.12.28", features = ["blocking", "json"] }
serde = { version = "=1.0.229", features = ["derive"] }
serde_json = "=1.0.154"
tokio = { version = "=1.54.1", features = ["rt-multi-thread"] }
typesense = "=0.2.0"
