[package]
name = "mcp_monitor"
version = "0.1.0"
edition = "2021"
publish = false

[dependencies]
arc-swap = "1"
dashmap = "*"
serde_json = "1"
uuid = { version = "1", features = ["v4"] }
chrono = "0.4"
