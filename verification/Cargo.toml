[package]
name = "workspace-cli"
version = "0.1.0"
edition = "2021"
publish = false

[dependencies]
html2text = "0.12"
urlencoding = "2"
serde_urlencoded = "0.7"
serde = { version = "1", features = ["derive"] }
serde_json = "1"
reqwest = { version = "0.12", default-features = false, features = ["json", "rustls-tls"] }
tokio = { version = "1", features = ["macros", "rt-multi-thread", "time", "sync"] }
clap = { version = "4", features = ["derive"] }
chrono = "0.4"
uuid = { version = "1", features = ["v4"] }
futures = "0.3"
async-stream = "0.3"
tracing-subscriber = { version = "0.3", features = ["env-filter"] }
