[package]
name = "surgemachine"
version = "0.1.0"
edition = "2021"
publish = false

[dependencies]
smallvec = "1"
rand = "0.8"
