[package]
name = "scholar_scraper"
version = "0.1.0"
edition = "2021"
publish = false

[dependencies]
chrono = "*"
csv = "*"
once_cell = "*"
reqwest = { version = "*", default-features = false, features = ["rustls-tls"] }
scraper = "*"
serde = { version = "*", features = ["derive"] }
serde_json = "*"
thiserror = "*"
tokio = { version = "*", features = ["full"] }
tracing = "*"
tracing-appender = "*"
tracing-subscriber = "*"
