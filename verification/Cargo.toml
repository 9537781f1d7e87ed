[package]
name = "apate"
version = "0.1.0"
edition = "2021"
publish = false

[dependencies]
actix-router = "=0.5.4"
actix-web = "=4.18.1"
async-lock = "=3.4.2"
base64 = "=0.22.1"
color-eyre = "=0.6.5"
env_logger = "=0.11.11"
getopt3 = "=2.6.1"
hex = "=0.4.3"
jsonpath-rust = "=1.0.12"
log = "=0.4.34"
minijinja = { version = "=2.24.0", features = ["loader"] }
rand = "=0.9.5"
rhai = { version = "=1.27.0", features = ["sync", "serde"] }
serde = { version = "=1.0.229", features = ["derive"] }
serde_json = "=1.0.154"
serde_urlencoded = "=0.7.1"
tokio = { version = "=1.54.1", features = ["rt", "rt-multi-thread"] }
toml = "=0.9.12"
uuid = { version = "=1.29.0", features = ["v4"] }
