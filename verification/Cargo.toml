[package]
name = "replay_source"
version = "0.1.0"
edition = "2021"
publish = false

[dependencies]
datafusion = { version = "*", default-features = false, features = ["sql"] }
tokio = { version = "1", features = ["rt", "rt-multi-thread", "macros", "sync"] }
tokio-stream = "0.1"
futures-util = "0.3"
rand = "0.8"
async-trait = "0.1"
