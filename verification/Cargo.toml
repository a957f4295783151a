[package]
name = "kollider_api"
version = "0.1.0"
edition = "2021"
publish = false

[dependencies]
base64 = "0.13"
hmac = "0.12"
sha2 = "0.10"
uuid = { version = "1", features = ["v4"] }
chrono = "0.4"
tokio = { version = "1", features = ["rt-multi-thread", "macros", "net", "time", "io-std", "io-util", "sync"] }
tokio-tungstenite = "*"
futures = "0.3"
url = "2"
reqwest = { version = "*", default-features = false }
