[package]
name = "nrf_recovery"
version = "0.1.0"
edition = "2021"
publish = false

[dependencies]
probe-rs = "*"
clap = { version = "*", features = ["derive"] }
env_logger = "*"
log = "*"
chrono = "*"
thiserror = "*"
