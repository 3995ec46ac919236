[package]
name = "elegant-departure"
version = "0.3.1"
edition = "2021"
publish = false

[dependencies]
futures = "0.3"
lazy_static = "1.4"
pin-project-lite = "0.2"
tokio-util = "0.7"
tokio = { version = "1", features = ["signal", "rt", "rt-multi-thread", "sync", "time"] }
