[package]
name = "ctchi"
version = "0.1.0"
edition = "2021"
publish = false

[dependencies]
regex = "*"
log = "*"
chrono = "*"
