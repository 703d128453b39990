[package]
name = "gridbuf"
version = "0.1.0"
edition = "2021"
publish = false

[dependencies]
vek = "=0.17.2"
