[package]
name = "lishp"
version = "0.1.0"
edition = "2021"
publish = false

[dependencies]
nu-ansi-term = "*"
reedline = "*"
