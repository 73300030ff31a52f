[package]
name = "radarflow"
version = "0.1.0"
edition = "2021"
publish = false

[dependencies]
memflow = "=0.2.4"
dataview = "=1.1.0"
serde = { version = "=1.0.229", features = ["derive"] }
serde_json = "=1.0.154"
clap = { version = "=4.6.7", features = ["derive"] }
tokio = { version = "=1.54.1", features = ["full"] }
tokio-timerfd = "=0.2.0"
axum = { version = "=0.7.9", features = ["ws"] }
tower-http = { version = "=0.5.2", features = ["fs"] }
local-ip-address = "=0.6.13"
log = "=0.4.35"
simple_logger = "=4.3.3"
anyhow = "=1.0.104"
thiserror = "=1.0.69"

[dev-dependencies]
memflow = { version = "=0.2.4", features = ["dummy_mem"] }
