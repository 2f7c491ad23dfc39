[package]
name = "actor"
version = "0.1.0"
edition = "2021"
publish = false

[dependencies]
async-channel = "=2.5.0"
oneshot = { version = "=0.2.1", features = ["std", "async"] }
async-oneshot = "=0.5.9"
blocking = "=1.7.0"
async-global-executor = "=3.1.0"
futures-util = "=0.3.34"
tokio = { version = "=1.54.1", features = ["rt", "rt-multi-thread", "sync"] }
