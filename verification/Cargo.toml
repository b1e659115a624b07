[package]
name = "crc_file"
version = "0.1.0"
edition = "2021"
publish = false

[dependencies]
crc = "*"
clap = "3"
