[package]
name = "pithos"
version = "0.1.0"
edition = "2021"
publish = false

[dependencies]
anyhow = "=1.0.104"
async-trait = "=0.1.92"
axum = { version = "=0.6.20", features = ["headers"] }
axum-client-ip = "=0.4.2"
axum-server = "=0.5.1"
axum-signed-urls = "=0.1.1"
bytes = "=1.12.1"
cloud-storage = { version = "=0.11.1", default-features = false, features = ["rustls-tls"] }
dotenv = "=0.15.0"
futures = "=0.3.34"
google-cloud-storage = { version = "=0.13.1", default-features = false, features = ["rustls-tls", "auth"] }
http = "=0.2.12"
hyper = { version = "=0.14.32", features = ["stream"] }
lazy_static = "=1.5.1"
mime = "=0.3.17"
serde = { version = "=1.0.229", features = ["derive"] }
serde_json = "=1.0.154"
serde_with = "=3.24.0"
tokio = { version = "=1.54.1", features = ["full"] }
tokio-util = { version = "=0.7.20", features = ["io"] }
toml = "=0.8.23"
tower = "=0.4.13"
tower-http = { version = "=0.4.4", features = ["cors"] }
tracing = "=0.1.44"
tracing-subscriber = "=0.3.23"
uuid = { version = "=1.29.0", features = ["v4", "serde"] }
