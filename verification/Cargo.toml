[package]
name = "minus"
version = "0.1.0"
edition = "2021"
publish = false

[dependencies]
async-mutex = "1.4"
crossterm = "0.19"
regex = "1"
textwrap = { version = "0.13", default-features = false, features = ["unicode-width"] }
