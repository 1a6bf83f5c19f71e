[package]
name = "ax_exchange_sdk"
version = "13.35.0"
edition = "2021"
publish = false

[dependencies]
anyhow = "=1.0.104"
arc-swap = "=1.9.3"
arcstr = "=1.2.0"
chrono = { version = "=0.4.45", features = ["serde"] }
chrono-tz = "=0.10.4"
dashmap = "=6.2.1"
futures = "=0.3.34"
log = "=0.4.35"
rand = "=0.8.8"
regex = "=1.13.1"
reqwest = { version = "=0.12.28", default-features = false, features = ["json"] }
rust_decimal = "=1.43.0"
serde = { version = "=1.0.229", features = ["derive"] }
serde_json = "=1.0.154"
serde_with = { version = "=3.24.0", features = ["chrono_0_4"] }
thiserror = "=2.0.21"
tokio = { version = "=1.54.1", features = ["rt", "sync", "time", "macros", "net"] }
tokio-tungstenite = "=0.30.0"
ulid = "=1.2.1"
url = "=2.5.8"
yawc = "=0.5.0"
