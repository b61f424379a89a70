[package]
name = "chrome-mcp"
version = "0.1.0"
edition = "2021"
publish = false

[dependencies]
base64 = "0.21"
clap = { version = "4", features = ["derive"] }
core-graphics = "0.23"
futures-util = "0.3"
reqwest = { version = "0.11", default-features = false, features = ["json"] }
serde = { version = "1", features = ["derive"] }
serde_json = "1"
thiserror = "1"
tokio = { version = "1", features = ["full"] }
tokio-tungstenite = "0.21"
tracing = "0.1"
tracing-subscriber = "0.3"
url = "2"
