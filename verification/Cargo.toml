[package]
name = "ps2events"
version = "0.1.0"
edition = "2021"
publish = false

[dependencies]
serde_json = "=1.0.151"
tokio = { version = "=1.53.2", features = ["rt", "macros", "net", "time"] }
tokio-tungstenite = "=0.30.0"
futures-util = "=0.3.34"
url = "=2.5.8"
reqwest = { version = "=0.13.5", default-features = false }
