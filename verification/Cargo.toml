[package]
name = "spng"
version = "0.2.0"
edition = "2021"
publish = false

[dependencies]
miniz_oxide = "*"
crc32fast = "*"
