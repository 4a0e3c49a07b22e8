[package]
name = "wargames"
version = "0.1.0"
edition = "2021"
publish = false

[dependencies]
config = { version = "=0.13.4", default-features = false, features = ["yaml"] }
yaml-rust = "=0.4.5"
async-ssh2-tokio = "=0.8.15"
