[package]
name = "tower_biscuit_auth"
version = "0.1.0"
edition = "2021"
publish = false

[dependencies]
arc-swap = "1"
biscuit-auth = "2"
dashmap = "5"
http = "1"
tower = { version = "0.4", features = ["filter"] }
hex = "0.4"
