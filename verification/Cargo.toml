[package]
name = "xbtun"
version = "0.1.0"
edition = "2021"
publish = false

[dependencies]
bytes = "*"
crossbeam-channel = "*"
etherparse = "0.9"
hex = "0.4"
log = "0.4"
tun-tap = { version = "0.1", default-features = false }
