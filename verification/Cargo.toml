[package]
name = "gold_market"
version = "0.1.0"
edition = "2021"
publish = false

[dependencies]
tokio = { version = "*", features = ["full"] }
tracing = "*"
tracing-subscriber = "*"
color-eyre = "*"
thiserror = "*"
