[package]
name = "keyseal"
version = "0.1.0"
edition = "2021"
publish = false

[dependencies]
data-encoding = "*"
rand = "*"
tokio = { version = "*", features = ["rt-multi-thread", "sync", "macros"] }
