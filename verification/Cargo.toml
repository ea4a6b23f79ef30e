[package]
name = "volumize"
version = "0.1.0"
edition = "2021"
publish = false

[dependencies]
tokio = { version = "1", features = ["sync", "rt-multi-thread", "net", "time", "macros"] }
uuid = { version = "1", features = ["v4"] }
serde = { version = "1", features = ["derive"] }
serde_json = "1"
tokio-util = "0.7"
tokio-tungstenite = "*"
futures-util = "0.3"
mdns-sd = "*"
socket2 = "*"
local-ip-address = "*"
ctrlc = "3"
thiserror = "*"
