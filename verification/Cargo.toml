[package]
name = "tiny_ping"
version = "0.1.0"
edition = "2021"
publish = false

[dependencies]
tokio = { version = "1", features = ["net", "time", "rt"] }
socket2 = { version = "0.5", features = ["all"] }
