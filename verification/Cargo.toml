[package]
name = "pass"
version = "1.0.0"
edition = "2021"
publish = false

[dependencies]
clap = "4"
clipboard = "0.5"
dirs = "*"
rand = "0.8"
