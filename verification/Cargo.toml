[package]
name = "debugger_core"
version = "0.1.0"
edition = "2021"
publish = false

[dependencies]
anyhow = "=1.0.104"
probe-rs = "=0.18.0"
probe-rs-cli-util = "=0.18.0"
time = "=0.3.55"
tracing = "=0.1.44"
