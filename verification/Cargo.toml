[package]
name = "oxybot"
version = "0.1.0"
edition = "2021"
publish = false

[dependencies]
anyhow = "1"
dirs = "5"
log = "0.4"
matrix-sdk = "0.7"
rand = "0.8"
tokio = { version = "1", features = ["fs", "macros", "rt-multi-thread"] }
tracing-subscriber = { version = "0.3", features = ["env-filter"] }
