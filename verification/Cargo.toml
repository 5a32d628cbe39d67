[package]
name = "octobot"
version = "0.1.0"
edition = "2021"
publish = false

[dependencies]
time = "0.1"
thread-id = "*"
log = "0.3"
env_logger = { version = "0.3", default-features = false }
