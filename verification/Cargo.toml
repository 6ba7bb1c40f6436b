[package]
name = "nautilus-alpaca"
version = "0.1.0"
edition = "2021"
publish = false

[dependencies]
anyhow = "=1.0.104"
jiff = { version = "=0.2.39", features = ["serde"] }
log = "=0.4.35"
nautilus-core = "=0.53.0"
nautilus-model = "=0.53.0"
nautilus-network = "=0.53.0"
reqwest = { version = "=0.12.28", default-features = false, features = ["json", "rustls-tls"] }
rust_decimal = { version = "=1.43.0", features = ["serde-with-str"] }
serde = { version = "=1.0.229", features = ["derive"] }
serde_json = "=1.0.154"
thiserror = "=2.0.21"
tokio = { version = "=1.54.1", features = ["full"] }
tokio-tungstenite = "=0.26.2"
zeroize = { version = "=1.9.1", features = ["derive"] }
