[package]
name = "hyper-timeout-connector"
version = "0.1.0"
edition = "2021"
publish = false

[dependencies]
hyper = "0.10"
socket2 = "0.3"
