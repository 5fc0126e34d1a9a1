[package]
name = "muxrd"
version = "0.1.0"
edition = "2021"
publish = false

[dependencies]
anyhow = "=1.0.104"
bincode = { version = "=2.0.1", features = ["serde"] }
dashmap = "=6.2.1"
fs4 = "=0.13.1"
http = "=1.5.0"
http-body = "=1.1.0"
log = "=0.4.35"
reqwest = { version = "=0.12.28", default-features = false, features = ["json"] }
serde = { version = "=1.0.229", features = ["derive"] }
serde_json = "=1.0.154"
tokio = { version = "=1.54.1", features = ["rt-multi-thread", "macros", "net", "io-util", "sync", "time"] }
tonic = { version = "=0.13.1", default-features = false, features = ["transport"] }
tower-layer = "=0.3.3"
tower-service = "=0.3.3"
