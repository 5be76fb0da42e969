[package]
name = "fastdatabroker"
version = "0.1.16"
edition = "2021"
publish = false

[dependencies]
uuid = { version = "=1.29.1", features = ["v4"] }
chrono = { version = "=0.4.45", features = ["serde"] }
rand = "=0.8.8"
sha2 = "=0.10.9"
serde = { version = "=1.0.229", features = ["derive"] }
serde_json = "=1.0.154"
crossbeam = "=0.8.5"
dashmap = "=6.2.1"
parking_lot = "=0.13.0"
lru = "=0.19.0"
anyhow = "=1.0.104"
futures = "=0.3.34"
tokio = { version = "=1.54.1", features = ["full"] }
actix-web = "=4.18.1"
actix-files = "0.6"
clap = { version = "=4.6.7", features = ["derive"] }
sled = "=0.34.7"
tracing = "=0.1.44"
tracing-subscriber = { version = "=0.3.23", features = ["env-filter", "json"] }
prometheus = "=0.13.4"
