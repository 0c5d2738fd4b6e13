[package]
name = "rebazel"
version = "0.1.0"
edition = "2021"
publish = false

[dependencies]
log = "0.4"
notify = "4.0"
pretty_env_logger = "0.4"
