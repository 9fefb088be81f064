[package]
name = "uxum"
version = "0.1.0"
edition = "2021"
publish = false

[dependencies]
base64 = "=0.22.1"
http = "=1.5.0"
subtle = "=2.6.1"
password-hash = { version = "=0.5.0", features = ["alloc"] }
argon2 = "=0.5.3"
scrypt = { version = "=0.11.0", features = ["simple"] }
pbkdf2 = { version = "=0.12.2", features = ["simple"] }
iso8601-duration = "=0.2.0"
forwarded-header-value = "=0.1.1"
governor = "=0.10.4"
serde = { version = "=1.0.229", features = ["derive"] }
serde_json = "=1.0.154"
humantime-serde = "=1.1.1"
axum = "=0.8.9"
tower = { version = "=0.5.3", features = ["util", "buffer"] }
tokio = { version = "=1.54.1", features = ["rt-multi-thread", "macros", "net", "time"] }
tracing = "=0.1.44"
problemdetails = { version = "=0.7.0", features = ["axum"] }
jsonwebtoken = "=9.3.1"
tower-http = { version = "=0.6.11", features = ["cors", "request-id", "catch-panic", "set-header", "trace"] }
tracing-subscriber = { version = "=0.3.23", features = ["fmt", "json"] }
config = "=0.14.1"
reqwest = { version = "=0.12.28", default-features = false, features = ["rustls-tls", "http2"] }
rdkafka = "=0.39.0"
opentelemetry = "=0.33.1"
