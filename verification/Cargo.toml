[package]
name = "resource_monitor"
version = "0.1.0"
edition = "2021"
publish = false

[dependencies]
env_logger = "*"
log = "*"
notify-rust = "*"
sysinfo = "*"
tokio = { version = "1", features = ["rt-multi-thread", "macros", "sync", "time"] }
zbus = "*"
