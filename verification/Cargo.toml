[package]
name = "inator"
version = "0.1.0"
edition = "2021"
publish = false
rust-version = "1.95"

[dependencies]
uuid = { version = "=1.29.0", features = ["v4", "serde"] }
getrandom = "=0.4.3"
rustls = { version = "=0.23.46", default-features = false, features = ["std"] }
serde = { version = "=1.0.229", features = ["derive"] }
ciborium = "=0.2.2"
erased-serde = "=0.4.11"
log = "=0.4.35"
tokio = { version = "=1.54.1", features = ["rt-multi-thread", "net", "sync", "io-util"] }
tokio-rustls = { version = "=0.26.6", default-features = false }
tokio-tungstenite = { version = "=0.26.2", features = ["__rustls-tls"] }
tungstenite = "=0.26.2"
futures-util = { version = "=0.3.34", features = ["sink"] }
bevy = { version = "=0.17.3", default-features = false }
syn = { version = "=2.0.119", features = ["full"] }
quote = "=1.0.47"
proc-macro2 = "=1.0.107"
