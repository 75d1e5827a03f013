[package]
name = "loxws"
version = "0.1.0"
edition = "2021"
publish = false

[dependencies]
rust-crypto = "=0.2.36"
rsa = "=0.9.10"
pem = "=4.0.0"
simple_asn1 = "=0.6.4"
rand = "=0.8.8"
base64 = "=0.13.1"
serde_json = "=1.0.151"
url = "=2.5.8"
tokio = { version = "1", features = ["rt", "net", "sync", "io-util", "time", "macros"] }
tokio-tungstenite = "=0.21.0"
futures-util = "0.3"
http = "1"
thiserror = "1"
serde = { version = "1", features = ["derive"] }
