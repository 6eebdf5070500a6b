[package]
name = "cli_logger"
version = "0.1.0"
edition = "2021"
publish = false

[dependencies]
chrono = "0.4"
colored = "2"
env_logger = "0.11"
log = "0.4"
thiserror = "1"
