[package]
name = "tcp_repeater"
version = "0.1.0"
edition = "2021"
publish = false

[dependencies]
async-std = { version = "1", features = ["attributes"] }
clap = { version = "4", features = ["derive"] }
env_logger = "*"
log = "0.4"
