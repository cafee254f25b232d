[package]
name = "socks5-reticulum-proxy"
version = "0.1.0"
edition = "2021"
publish = false

[dependencies]
anyhow = "1"
env_logger = "*"
fast-socks5 = "*"
hex = "0.4"
log = "0.4"
rand_core = { version = "0.6", features = ["getrandom"] }
reticulum = "*"
serde = { version = "1", features = ["derive"] }
serde_json = "1"
structopt = "0.3"
tokio = { version = "1", features = ["full"] }
tokio-util = "0.7"
tracing = "0.1"
