[package]
name = "tracker"
version = "0.1.0"
edition = "2021"
publish = false

[dependencies]
chrono = "*"
clap = { version = "*", features = ["derive"] }
futures = "*"
json-patch = "*"
owo-colors = "*"
rand = "*"
serde = { version = "*", features = ["derive"] }
serde_json = "*"
serde_json_diff = "*"
thiserror = "*"
tokio = { version = "*", features = ["rt-multi-thread", "macros", "sync", "time", "signal"] }
tokio-tungstenite = "*"
tracing = "*"
tracing-subscriber = { version = "*", features = ["env-filter"] }
uuid = { version = "*", features = ["v4"] }
