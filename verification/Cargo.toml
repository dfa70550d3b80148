[package]
name = "rtr_validator"
version = "0.1.0"
edition = "2021"
publish = false

[dependencies]
anyhow = "=1.0.104"
clap = { version = "=4.6.7", features = ["derive"] }
ipnet = "=2.12.2"
rpki = { version = "=0.19.3", features = ["rtr", "crypto"] }
tokio = { version = "=1.54.1", features = ["full"] }
