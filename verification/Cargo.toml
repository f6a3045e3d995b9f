[package]
name = "sup_resilience"
version = "0.1.0"
edition = "2021"
publish = false

[dependencies]
tokio = { version = "0.2", default-features = false, features = ["sync", "time", "rt-core"] }
rand = "0.7"
ipc-channel = "0.15"
thiserror = "1"
log = "0.4"
