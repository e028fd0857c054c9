[package]
name = "kompusim"
version = "0.1.0"
edition = "2021"
publish = false

[dependencies]
clap = { version = "4", features = ["derive"] }
text_io = "0.1"
owo-colors = "*"
anstream = "*"
