[package]
name = "okay-you-very-pro"
version = "0.1.0"
edition = "2021"
publish = false

[dependencies]
dirs = "5"
image = { version = "0.24", default-features = false, features = ["png"] }
open = "5"
rfd = "*"
toml = { version = "0.8", features = ["preserve_order"] }
tracing = "0.1"
tracing-appender = "0.2"
tracing-subscriber = "0.3"
