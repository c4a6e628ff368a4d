[package]
name = "tedge_plugins"
version = "0.1.0"
edition = "2021"
publish = false

[dependencies]
serde = { version = "=1.0.229", features = ["derive"] }
serde_json = "=1.0.154"
toml = "=0.5.11"
sysinfo = "=0.23.13"
inotify = "=0.10.2"
paho-mqtt = "=0.11.1"
hyper = { version = "=0.14.32", features = ["server", "http1", "tcp"] }
tokio = { version = "=1.54.1", features = ["rt", "macros", "sync", "time"] }
futures = "=0.3.34"
tracing = "=0.1.44"
log = "=0.4.35"
humantime = "2"
