[package]
name = "fvkit_workspace"
version = "0.1.0"
edition = "2021"
publish = false

[dependencies]
anyhow = "=1.0.104"
hyper-util = { version = "=0.1.21", features = ["tokio"] }
prost = "=0.13.5"
tokio = { version = "=1.54.1", features = ["rt-multi-thread", "macros", "sync", "time", "net", "fs"] }
tokio-stream = "=0.1.19"
tonic = "=0.12.3"
