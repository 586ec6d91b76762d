[package]
name = "cow_dance"
version = "0.1.0"
edition = "2021"
publish = false

[dependencies]
gemini-engine = "*"
rodio = "*"
stl_io = "*"
