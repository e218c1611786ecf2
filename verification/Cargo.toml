[package]
name = "aria2_api"
version = "0.1.0"
edition = "2021"
publish = false

[dependencies]
futures-util = "0.3"
log = "0.4"
serde = { version = "1", features = ["derive"] }
serde_json = "1"
tokio = { version = "1", features = ["macros", "net", "rt-multi-thread", "sync", "time"] }
tokio-tungstenite = "0.21"
