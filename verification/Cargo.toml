[package]
name = "spacemouse_proxy"
version = "0.1.0"
edition = "2021"
publish = false

[dependencies]
futures-util = "*"
libc = "*"
serde = { version = "*", features = ["derive"] }
serde_json = "*"
tokio = { version = "*", features = ["rt-multi-thread", "net", "sync", "time", "macros"] }
tokio-tungstenite = "*"
