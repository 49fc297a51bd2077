[package]
name = "replay_buffer"
version = "0.1.0"
edition = "2021"
publish = false

[dependencies]
relative-path = "=1.9.3"
serde = { version = "=1.0.229", features = ["derive"] }
serde_json = "=1.0.154"
specta = { version = "=2.0.0-rc.20", features = ["derive"] }
tokio = { version = "=1.54.1", features = ["rt", "rt-multi-thread", "sync", "time", "fs", "macros"] }
tracing = "=0.1.44"
uuid = { version = "=1.29.0", features = ["v4"] }
