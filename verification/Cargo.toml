[package]
name = "chronicle_cql"
version = "0.1.0"
edition = "2021"
publish = false

[dependencies]
serde = { version = "=1.0.229", features = ["derive"] }
serde_json = "=1.0.154"
ron = "=0.6.6"
url = { version = "=2.5.8", features = ["serde"] }
clap = "2"
futures = "0.3"
tokio = { version = "1", features = ["rt-multi-thread", "macros"] }
tokio-tungstenite = "*"
