[package]
name = "bitfun_logic"
version = "0.1.0"
edition = "2021"
publish = false

[dependencies]
uuid = { version = "1", features = ["v4"] }
dashmap = "6"
serde = { version = "1", features = ["derive"] }
serde_json = "1"
axum = "0.7"
tokio = { version = "1", features = ["rt-multi-thread", "macros", "fs", "net", "sync", "time"] }
anyhow = "1"
log = "0.4"
