[package]
name = "chess_notation"
version = "0.1.0"
edition = "2021"
publish = false

[dependencies]
time = { version = "*", features = ["local-offset"] }
clap = { version = "*", features = ["derive"] }
