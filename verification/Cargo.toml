[package]
name = "infobserve_processor"
version = "0.1.0"
edition = "2021"
publish = false

[dependencies]
anyhow = "=1.0.104"
chrono = "=0.4.45"
clap = { version = "=4.6.7", features = ["cargo"] }
crossbeam-channel = "=0.5.17"
log = "=0.4.34"
num_cpus = "=1.17.0"
postgres = { version = "=0.19.14", features = ["with-chrono-0_4"] }
r2d2 = "=0.8.10"
r2d2_postgres = "=0.18.2"
redis = "=1.8.0"
serde_json = "=1.0.154"
thiserror = "=1.0.69"
walkdir = "=2.5.0"
yaml-rust = "=0.4.5"
yara = { version = "=0.32.0", default-features = false, features = ["vendored", "bundled-4_5_5"] }
