[package]
name = "bot_client"
version = "0.1.0"
edition = "2021"
publish = false

[dependencies]
clap = { version = "4", features = ["derive"] }
crossbeam = "0.8"
log = "0.4"
rand = "0.10"
rsa = "0.10.0-rc"
simple_logger = "5"
tokio = { version = "1", features = ["full"] }
uuid = { version = "1", features = ["v4"] }
