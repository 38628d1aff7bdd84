[package]
name = "tvmate"
version = "0.1.0"
edition = "2021"
publish = false

[dependencies]
rand = "0.8"
uuid = { version = "1", features = ["v4", "serde"] }
serde_urlencoded = "0.7"
serde = { version = "1", features = ["derive"] }
bincode = "1.3"
axum = { version = "0.7", features = ["ws"] }
tokio = { version = "1", features = ["rt-multi-thread", "macros", "sync", "net", "time"] }
tracing = "0.1"
tracing-subscriber = "0.3"
thiserror = "1"
