[package]
name = "wikipedia"
version = "0.1.0"
edition = "2021"
publish = false

[dependencies]
bytes = "=1.12.1"
chrono = "=0.4.45"
http = "=0.2.12"
hyper = { version = "=0.14.32", features = ["client", "http1", "http2", "tcp"] }
hyper-proxy = "=0.9.1"
hyper-tls = "=0.5.0"
log = "=0.4.34"
percent-encoding = "=2.3.2"
regex = "=1.13.1"
serde = { version = "=1.0.229", features = ["derive"] }
serde_json = "=1.0.154"
serde_urlencoded = "=0.7.1"
tokio = { version = "=1.54.1", features = ["rt"] }
typed-headers = "=0.2.0"
