[package]
name = "bandwidth_hero_proxy"
version = "0.1.0"
edition = "2021"
publish = false

[dependencies]
anyhow = "=1.0.104"
axum = "=0.7.9"
curl-rest = "=0.6.0"
dotenvy = "=0.15.7"
env_logger = "=0.11.11"
hex = "=0.4.3"
image = { version = "=0.25.10", default-features = false, features = ["jpeg", "png", "gif", "webp", "bmp", "tiff"] }
imgref = "=1.12.3"
log = "=0.4.34"
md-5 = "=0.10.6"
ravif = { version = "=0.11.20", default-features = false, features = ["threading"] }
rgb = "=0.8.53"
serde = { version = "=1.0.229", features = ["derive"] }
serde_json = "=1.0.154"
thiserror = "=1.0.69"
tokio = { version = "=1.54.1", features = ["rt-multi-thread", "macros", "sync", "time", "net"] }
tower-http = { version = "=0.6.11", features = ["cors", "compression-gzip", "trace"] }
url = "=2.5.8"
