[package]
name = "usb_relay"
version = "0.1.0"
edition = "2021"
publish = false

[dependencies]
ansi_term = "0.12"
base64 = "0.13"
futures = "0.3"
futures-channel = "0.3"
futures-util = "0.3"
http = "0.2"
rand = "0.8"
serde = { version = "1", features = ["derive"] }
serde_json = "1"
serialport = { version = "4", default-features = false }
tokio = { version = "1", features = ["rt-multi-thread", "macros", "time"] }
tokio-tungstenite = "0.20"
