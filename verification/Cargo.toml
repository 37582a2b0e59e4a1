[package]
name = "msg_socket"
version = "0.1.0"
edition = "2021"
publish = false

[dependencies]
bytes = "1"
futures = "0.3"
rustc-hash = "2"
tokio = { version = "1", features = ["sync", "rt", "net", "io-util"] }
tokio-stream = "0.1"
tokio-util = { version = "0.7", features = ["codec"] }
tracing = "0.1"
