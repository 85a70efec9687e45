[package]
name = "flows"
version = "0.1.0"
edition = "2021"
publish = false

[dependencies]
either = "*"
futures-util = { version = "*", default-features = false, features = ["std", "sink"] }
async-io = "*"
pin-project-lite = "*"
