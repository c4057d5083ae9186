[package]
name = "ccproxy"
version = "0.1.0"
edition = "2021"
publish = false

[dependencies]
hyper = { version = "1", features = ["http1", "server"] }
hyper-util = { version = "0.1", features = ["tokio"] }
tokio = { version = "1", features = ["full"] }
reqwest = { version = "0.12", default-features = false }
log = "0.4"
log4rs = "1"
