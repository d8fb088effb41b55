[package]
name = "config_reload"
version = "0.1.0"
edition = "2021"
publish = false

[dependencies]
anyhow = "1"
crossbeam-channel = "0.5"
notify = "*"
tracing = "0.1"

[dev-dependencies]
serde_yaml = "*"
