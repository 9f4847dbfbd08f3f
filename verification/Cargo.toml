[package]
name = "loom_core"
version = "0.1.0"
edition = "2021"
publish = false

[dependencies]
async-trait = "0.1"
tokio = { version = "1", features = ["rt-multi-thread", "time", "sync"] }
tracing = "0.1"
