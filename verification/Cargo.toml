[package]
name = "mini_http"
version = "0.1.0"
edition = "2021"
publish = false

[dependencies]
serde_json = "1"
hyper = { version = "0.14", features = ["server", "http1", "tcp"] }
tokio = { version = "1", features = ["fs", "io-util", "macros", "rt-multi-thread"] }
