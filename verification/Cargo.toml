[package]
name = "binance-async"
version = "0.1.0"
edition = "2021"
publish = false

[dependencies]
futures-util = "0.3"
rust_decimal = "1"
serde = { version = "1", features = ["derive"] }
serde_json = "1"
tokio = { version = "1", features = ["net", "rt"] }
tokio-tungstenite = { version = "*", features = ["rustls-tls-webpki-roots"] }
url = "2"
