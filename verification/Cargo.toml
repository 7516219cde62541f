[package]
name = "faascell"
version = "0.1.0"
edition = "2021"
publish = false

[dependencies]
aho-corasick = "=1.1.5"
anyhow = "=1.0.104"
argh = "=0.1.19"
async-pidfd = "0.1.5"
backon = "1.6.0"
base64 = "=0.22.1"
camino = "=1.2.6"
dashmap = "=6.2.1"
fastant = "=0.1.11"
humantime = "=2.4.0"
itoa = "=1.0.18"
redb = "=4.4.0"
rustix = { version = "=1.1.6", features = ["fs", "process", "thread"] }
serde = { version = "=1.0.229", features = ["derive"] }
serde_json = "=1.0.154"
sysinfo = "0.37"
tokio = { version = "=1.54.1", features = ["full"] }
tokio-util = "0.7.20"
tracing = "=0.1.44"
tracing-appender = "0.2"
tracing-flame = "0.2"
tracing-subscriber = { version = "0.3.23", features = ["env-filter"] }
ubyte = "=0.10.4"
uuid = { version = "=1.29.0", features = ["v4"] }
