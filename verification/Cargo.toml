[package]
name = "grf"
version = "0.1.0"
edition = "2021"
publish = false

[dependencies]
anyhow = "1"
clap = "3"
clap_generate = "3"
dirs = "*"
futures = "0.3"
shiplift = "0.7"
tokio = { version = "1", features = ["full"] }
