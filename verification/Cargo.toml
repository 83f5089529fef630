[package]
name = "bat2exe"
version = "1.0.0"
edition = "2021"
publish = false

[dependencies]
anyhow = "1"
chardet = "0.2"
clap = "4"
encoding_rs = "0.8"
tempfile = "3"
