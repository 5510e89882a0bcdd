[package]
name = "frameproto"
version = "0.1.0"
edition = "2021"
publish = false

[dependencies]
log = "0.4"
threadpool = "1"
tokio = { version = "1", features = ["full"] }
tokio-io-timeout = "1"
