[package]
name = "connlib_control"
version = "0.1.0"
edition = "2021"
publish = false

[dependencies]
bimap = "0.6"
tokio = { version = "1", features = ["rt", "rt-multi-thread", "sync", "fs", "io-util", "macros"] }
tokio-util = { version = "0.7", features = ["codec", "io"] }
async-compression = { version = "0.4", features = ["tokio", "gzip"] }
hickory-resolver = "0.24"
reqwest = { version = "0.12", default-features = false, features = ["stream"] }
url = "2"
tracing = "0.1"
parking_lot = "0.12"
