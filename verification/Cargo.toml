[package]
name = "rerun_bootstrap"
version = "0.1.0"
edition = "2021"
publish = false

[dependencies]
anyhow = "=1.0.104"
clap = { version = "=4.6.7", features = ["derive"] }
re_sdk = { version = "=0.22.1", features = ["web_viewer"] }
re_ws_comms = "=0.22.1"
tokio = { version = "=1.53.2", features = ["rt-multi-thread", "signal", "sync"] }
