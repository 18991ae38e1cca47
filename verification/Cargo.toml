[package]
name = "strife"
version = "0.1.0"
edition = "2021"
publish = false

[dependencies]
anyhow = "=1.0.104"
dirs = "=4.0.0"
futures-util = "=0.3.34"
keyring = { version = "3", features = ["linux-native"] }
reqwest = "=0.11.27"
serde = { version = "=1.0.229", features = ["derive"] }
serde_json = "=1.0.154"
time = { version = "0.3", features = ["macros"] }
tokio = { version = "=1.54.1", features = ["full"] }
tokio-tungstenite = { version = "=0.18.0", features = ["native-tls"] }
tracing = "=0.1.44"
tracing-subscriber = { version = "=0.3.23", features = ["time"] }
