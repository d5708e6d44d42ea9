[package]
name = "shortsbot"
version = "0.1.0"
edition = "2021"
publish = false

[dependencies]
regex = "=1.13.1"
tinytemplate = "=1.2.1"
serde = "=1.0.229"
serde_derive = "=1.0.229"
tokio = { version = "=1.53.2", features = ["macros", "rt-multi-thread", "sync", "time"] }
url = "=2.5.8"
tracing-subscriber = "=0.3.23"
matrix-sdk = { version = "0.6", default-features = false, features = ["rustls-tls"] }
