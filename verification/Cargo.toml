[package]
name = "pong"
version = "0.1.0"
edition = "2021"

[dependencies]
macroquad = { version = "0.3", default-features = false }
