[package]
name = "pan_cjkv"
version = "0.1.0"
edition = "2021"
publish = false

[dependencies]
runestr = "*"
