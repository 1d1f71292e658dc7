[package]
name = "jq_gateway"
version = "0.1.0"
edition = "2021"
publish = false

[dependencies]
jq-rs = "=0.4.1"
jq-sys = { version = "=0.2.2", features = ["pkg-config"] }
actix-web = "=4.15.0"
awc = "=3.8.2"
clap = { version = "=4.6.7", features = ["derive"] }
env_logger = "=0.11.11"
log = "=0.4.34"
chrono = "=0.4.45"
serde = { version = "=1.0.229", features = ["derive"] }
serde_yaml = "=0.9.34"
