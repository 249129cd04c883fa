[package]
name = "nodecook_agent"
version = "0.1.0"
edition = "2021"
publish = false

[dependencies]
anyhow = "=1.0.104"
clap = { version = "=4.6.7", features = ["derive", "env"] }
flate2 = "=1.1.10"
futures-util = "=0.3.34"
rand = "=0.8.8"
reqwest = "=0.12.28"
rust_socketio = { version = "=0.6.0", features = ["async"] }
serde_json = "=1.0.154"
sha2 = "=0.10.9"
surge-ping = "=0.8.4"
tar = "=0.4.46"
tokio = { version = "=1.54.1", features = ["full"] }
tracert = "=0.8.0"
tracing = "=0.1.44"
tracing-subscriber = "=0.3.23"
url = "=2.5.8"
