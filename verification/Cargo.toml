[package]
name = "eui64tool"
version = "1.0.1"
edition = "2021"
publish = false

[dependencies]
getifs = "*"
