[package]
name = "haproxy_api"
version = "0.1.0"
edition = "2021"
publish = false

[dependencies]
dashmap = "5"
rustc-hash = "2"
tokio = { version = "1", features = ["sync", "rt-multi-thread", "net", "io-util", "time"] }
