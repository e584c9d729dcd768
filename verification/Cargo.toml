[package]
name = "stats_agent"
version = "0.1.0"
edition = "2021"
publish = false

[dependencies]
sysinfo = "0.32"
os_info = "3"
serde = { version = "1", features = ["derive"] }
serde_json = "1"
