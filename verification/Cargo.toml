[package]
name = "portal_screencast"
version = "0.1.0"
edition = "2021"
publish = false

[dependencies]
async-std = { version = "=1.13.2", features = ["attributes"] }
zbus = "=3.15.2"
