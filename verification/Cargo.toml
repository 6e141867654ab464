[package]
name = "ws_relay"
version = "0.1.0"
edition = "2021"
publish = false

[dependencies]
axum = { version = "*", features = ["ws"] }
futures = "*"
serde_json = "*"
tokio = { version = "*", features = ["sync", "rt-multi-thread", "macros", "net", "time"] }
uuid = { version = "*", features = ["v4"] }
