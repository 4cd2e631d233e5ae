[package]
name = "media_gateway"
version = "0.1.0"
edition = "2021"
publish = false

[dependencies]
infer = { version = "=0.15.0", default-features = false }
axum = { version = "=0.6.20", features = ["multipart"] }
tokio = { version = "=1.54.1", features = ["full"] }
tokio-util = { version = "=0.7.20", features = ["io"] }
tempfile = "=3.27.0"
serde = { version = "=1.0.229", features = ["derive"] }
ffmpeg-cli = "=0.1.0"
magick_rust = "=0.19.1"
metrics = "=0.21.1"
metrics-exporter-prometheus = "=0.12.2"
tower-http = { version = "=0.4.4", features = ["trace"] }
tracing = "=0.1.44"
tracing-subscriber = { version = "=0.3.23", features = ["env-filter"] }
