[package]
name = "leaf"
version = "0.1.0"
edition = "2021"
publish = false

[dependencies]
tokio = { version = "*", features = ["net", "time", "sync", "io-util", "rt"] }
futures = "*"
async-trait = "*"
async-socks5 = "*"
