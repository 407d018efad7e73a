[package]
name = "tiqer"
version = "0.1.0"
edition = "2021"
publish = false

[dependencies]
clap = "=2.34.0"
crossterm = "=0.29.0"
env_logger = "=0.11.11"
failure = "=0.1.8"
futures-util = "=0.3.34"
log = "=0.4.34"
serde = { version = "=1.0.229", features = ["derive"] }
serde_json = "=1.0.154"
tokio = { version = "=1.54.1", features = ["macros", "rt-multi-thread"] }
tokio-tungstenite = { version = "=0.30.0", features = ["native-tls"] }
url = "=2.5.8"
