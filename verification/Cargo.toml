[package]
name = "articuelate"
version = "0.1.0"
edition = "2021"
publish = false

[dependencies]
uuid = { version = "1", features = ["v7", "serde"] }
im = "15"
tokio = { version = "1", features = ["full"] }
arc-swap = "1"
crossbeam-channel = "0.5"
tracing = "0.1"
tracing-subscriber = { version = "0.3", features = ["env-filter"] }
serde = { version = "1", features = ["derive"] }
serde_with = "3"
toml = "0.8"
notify = "*"
ringbuf = "0.4"
rodio = "0.20"
cpal = "0.15"
async-trait = "0.1"
thiserror = "*"
