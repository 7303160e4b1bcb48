[package]
name = "rustwebui_app"
version = "1.0.0"
edition = "2021"
publish = false

[dependencies]
anyhow = "1"
async-trait = "0.1"
chrono = { version = "0.4", features = ["serde"] }
futures = "0.3"
futures-util = "0.3"
lazy_static = "1"
mime_guess = "2"
rusqlite = { version = "*", features = ["bundled"] }
serde = { version = "1", features = ["derive"] }
serde_json = "1"
thiserror = "*"
tiny_http = "0.12"
tokio = { version = "1", features = ["full"] }
tokio-tungstenite = "*"
toml = "*"
tracing = "0.1"
tracing-appender = "0.2"
tracing-subscriber = { version = "0.3", features = ["env-filter"] }
tungstenite = "*"
uuid = { version = "1", features = ["v4"] }
webui-rs = "*"
