[package]
name = "treehash"
version = "0.1.0"
edition = "2021"
publish = false

[dependencies]
async-channel = "*"
sha256 = "*"
