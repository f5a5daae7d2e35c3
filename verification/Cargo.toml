[package]
name = "fedimint_guard"
version = "0.1.0"
edition = "2021"
publish = false

[dependencies]
anyhow = "=1.0.104"
async-trait = "=0.1.92"
axum = "=0.8.9"
axum-extra = { version = "=0.12.6", features = ["cookie"] }
bincode = "=1.3.3"
bytes = "=1.12.1"
clap = { version = "=4.6.7", features = ["derive"] }
futures = "=0.3.34"
iroh = { version = "*", default-features = false }
maud = "=0.27.0"
serde = { version = "=1.0.229", features = ["derive"] }
serde_json = "=1.0.154"
tokio = { version = "=1.54.1", features = ["full"] }
tokio-rustls = "*"
tokio-util = { version = "=0.7.20", features = ["codec"] }
tracing = "=0.1.44"
