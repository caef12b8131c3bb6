[package]
name = "fakelake"
version = "0.1.0"
edition = "2021"
publish = false

[dependencies]
fastrand = "=2.5.0"
fastrand-contrib = "=0.1.0"
chrono = "=0.4.45"
yaml-rust = "=0.4.5"
linked-hash-map = "=0.5.6"
clap = { version = "=4.6.7", features = ["derive"] }
log = "=0.4.34"
env_logger = "=0.11.11"
csv = "=1.4.0"
serde_json = "=1.0.151"
arrow-array = "=60.0.0"
arrow-schema = "=60.0.0"
parquet = "=60.0.0"
rayon = "=1.12.0"
bytes = "=1.12.1"
