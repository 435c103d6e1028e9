[package]
name = "tunio"
version = "0.1.0"
edition = "2021"
publish = false

[dependencies]
crossbeam-channel = "*"
libc = "*"
tokio = { version = "*", default-features = false, features = ["rt", "net", "io-util"] }
