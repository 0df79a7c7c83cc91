[package]
name = "event_broker_sdk"
version = "0.1.0"
edition = "2021"
publish = false

[dependencies]
chrono = { version = "=0.4.45", features = ["serde"] }
clap = { version = "=4.6.7", features = ["derive"] }
clickhouse = "=0.15.3"
futures-util = "=0.3.34"
gts = "=0.16.2"
reqwest = { version = "=0.12.28", default-features = false, features = ["json", "rustls-tls", "stream"] }
secrecy = "=0.10.3"
serde = { version = "=1.0.229", features = ["derive"] }
serde_html_form = "=0.4.1"
serde_json = "=1.0.154"
testcontainers = "=0.28.0"
tokio = { version = "=1.54.1", features = ["full"] }
tokio-util = "=0.7.20"
uuid = { version = "=1.29.0", features = ["v4", "serde"] }
