[package]
name = "kcp_stream"
version = "0.1.0"
edition = "2021"
publish = false

[dependencies]
kcp = "*"
rand = "*"
futures = "0.1"
tokio-core = "*"
tokio-io = "*"
