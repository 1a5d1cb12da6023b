[package]
name = "git-lfs-cache"
version = "0.1.0"
edition = "2021"
publish = false

[dependencies]
anyhow = "=1.0.104"
backoff = { version = "=0.4.0", features = ["tokio"] }
bytes = "=1.12.1"
chrono = { version = "=0.4.45", features = ["serde"] }
clap = { version = "=4.6.7", features = ["derive"] }
futures = "=0.3.34"
headers = "=0.4.2"
hex = "=0.4.3"
http = "=1.5.0"
http-body = "=1.1.0"
http-body-util = "=0.1.5"
http-serde = "=2.1.1"
humansize = "=2.1.3"
hyper-rustls = { version = "=0.27.10", default-features = false, features = ["http1", "http2", "logging", "native-tokio", "ring", "tls12"] }
hyper-util = { version = "=0.1.21", features = ["client-legacy", "http1", "http2", "tokio"] }
rustls = { version = "=0.23.46", default-features = false, features = ["logging", "ring", "std", "tls12"] }
secrecy = "=0.10.3"
serde = { version = "=1.0.229", features = ["derive"] }
serde_json = "=1.0.154"
sha2 = "=0.10.9"
shlex = "=1.3.0"
tempfile = "=3.27.0"
thiserror = "=1.0.69"
tokio = { version = "=1.54.1", features = ["full"] }
tower = "0.5"
tracing = "=0.1.44"
tracing-subscriber = { version = "=0.3.23", features = ["env-filter"] }
url = { version = "=2.5.8", features = ["serde"] }
uuid = { version = "=1.29.0", features = ["v4"] }

[dev-dependencies]
rand = "=0.8.8"
