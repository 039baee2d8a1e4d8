[package]
name = "duplexify"
version = "1.2.2"
edition = "2021"
publish = false

[dependencies]
async-std = "1"
pin-project-lite = "0.2"
