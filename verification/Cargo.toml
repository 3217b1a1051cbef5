[package]
name = "mkwo_records_bot"
version = "0.1.0"
edition = "2021"
publish = false

[dependencies]
anyhow = "1"
base64 = "0.22"
chrono = "0.4"
chrono-tz = "0.10"
dotenv = "0.15"
google-sheets4 = "6"
image = { version = "0.25", default-features = false, features = ["jpeg", "png"] }
infer = "0.19"
mime = "0.3"
once_cell = "1"
regex = "1"
reqwest = { version = "0.12", default-features = false, features = ["json", "rustls-tls"] }
serde = { version = "1", features = ["derive"] }
serde_json = "1"
serenity = { version = "0.12", default-features = false, features = ["client", "gateway", "model", "http", "rustls_backend", "builder", "cache", "utils"] }
thiserror = "2"
tokio = { version = "1", features = ["macros", "rt-multi-thread", "sync"] }
