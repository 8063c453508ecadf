[package]
name = "smaragdine"
version = "0.1.0"
edition = "2021"
publish = false

[dependencies]
clap = "2"
env_logger = "*"
log = "*"
nvml-wrapper = "*"
procfs = "*"
