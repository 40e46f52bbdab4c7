[package]
name = "webroute"
version = "0.1.0"
edition = "2021"
publish = false

[dependencies]
urlencoding = "2"
clap = { version = "4", features = ["derive"] }
threadpool = "1"
tracing = "0.1"
tracing-subscriber = "0.3"
human-panic = "*"
