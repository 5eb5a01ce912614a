[package]
name = "bar_control"
version = "0.1.0"
edition = "2021"
publish = false

[dependencies]
toml = "0.8"
time = { version = "0.3", features = ["local-offset"] }
i3ipc = "*"
