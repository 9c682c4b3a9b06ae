[package]
name = "mrbgpdv2"
version = "0.1.0"
edition = "2021"
publish = false

[dependencies]
anyhow = "1"
bytes = "1"
futures = "0.3"
ipnetwork = "*"
rtnetlink = "*"
tokio = { version = "1", features = ["net", "io-util", "rt", "rt-multi-thread", "time", "macros"] }
tracing = "0.1"
