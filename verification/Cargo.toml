[package]
name = "remote_bridge"
version = "0.1.0"
edition = "2021"
publish = false

[dependencies]
aes = "0.8"
cipher = "0.4"
hex = "0.4"
local-ip-address = "*"
