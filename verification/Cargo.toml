[package]
name = "switchr"
version = "0.1.0"
edition = "2021"
publish = false

[dependencies]
moka = { version = "0.12", features = ["sync"] }
tokio = { version = "1", features = ["rt-multi-thread", "sync"] }
tokio-tun = "*"

[dev-dependencies]
hex = "0.4"
