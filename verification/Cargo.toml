[package]
name = "goose_control"
version = "0.1.0"
edition = "2021"
publish = false

[dependencies]
flume = "*"
tokio = { version = "*", features = ["net", "io-util", "rt", "rt-multi-thread", "time", "macros"] }
serde_json = "*"

[dev-dependencies]
regex = "*"
