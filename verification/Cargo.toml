[package]
name = "turbo-cdn"
version = "0.1.0"
edition = "2021"
publish = false

[dependencies]
sha2 = "0.10"
flate2 = "1"
regex = "1"
url = "2"
serde = { version = "1", features = ["derive"] }
serde_json = "1"
tokio = { version = "1", features = ["full"] }
reqwest = { version = "0.12", default-features = false, features = ["rustls-tls", "json", "stream"] }
tracing = "0.1"
tracing-subscriber = { version = "0.3", features = ["env-filter", "json"] }
tracing-appender = "0.2"
indicatif = "0.17"
clap = { version = "4", features = ["derive"] }
toml = "0.8"
figment = { version = "0.10", features = ["toml", "env"] }
dirs = "5"
chrono = { version = "0.4", features = ["serde"] }
uuid = { version = "1", features = ["v4", "serde"] }
dashmap = "6"
memmap2 = "0.9"
mimalloc = "0.1"
once_cell = "1"
futures = "0.3"
futures-util = "0.3"
thiserror = "1"
humantime-serde = "1"
