[package]
name = "orchestrator"
version = "0.1.0"
edition = "2021"
publish = false

[dependencies]
env_logger = "0.4"
futures = "0.1"
getopts = "0.2"
log = "0.3"
tokio-core = "0.1"
tokio-signal = "0.1"
