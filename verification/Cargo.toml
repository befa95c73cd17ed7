[package]
name = "speedtest"
version = "0.1.0"
edition = "2021"
publish = false

[dependencies]
rand = "=0.10.3"
image = { version = "=0.25.10", default-features = false, features = ["bmp"] }
uuid = { version = "=1.27.0", features = ["v4", "serde"] }
axum = { version = "=0.8.9", features = ["multipart"] }
tokio = { version = "=1.53.2", features = ["rt-multi-thread", "macros", "sync", "time", "net"] }
bytes = "=1.12.1"
http-body = "=1.1.0"
serde = { version = "=1.0.229", features = ["derive"] }
serde_urlencoded = "=0.7.1"
