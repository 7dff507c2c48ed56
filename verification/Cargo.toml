[package]
name = "fs_latency_exporter"
version = "0.1.0"
edition = "2021"
publish = false

[dependencies]
rand = "0.8"
tokio = { version = "1", features = ["rt"] }
warp = "0.3"
tracing = "0.1"
pretty_env_logger = "0.5"
