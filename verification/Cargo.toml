[package]
name = "neos"
version = "0.1.0"
edition = "2021"
publish = false

[dependencies]
chrono = "0.4"
chrono-tz = "*"
encoding_rs = "0.8"
regex = "1"
