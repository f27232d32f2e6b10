[package]
name = "http_adapter"
version = "0.1.0"
edition = "2021"
publish = false

[dependencies]
url = "2"
once_cell = "1"
