[package]
name = "node_supervisor"
version = "0.1.0"
edition = "2021"
publish = false

[dependencies]
discv5 = "=0.4.1"
tokio = { version = "*", features = ["full"] }
tracing = "*"
