[package]
name = "op-rbuilder"
version = "0.1.0"
edition = "2021"
publish = false

[dependencies]
alloy-primitives = "=1.4.1"
async-trait = "0.1"
futures-util = "0.3"
tokio = { version = "1.48", features = ["rt", "rt-multi-thread", "sync", "time"] }
tracing = "0.1"
