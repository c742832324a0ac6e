[package]
name = "spin_network"
version = "0.1.0"
edition = "2021"
publish = false

[dependencies]
anyhow = "1"
ipnet = "2"
