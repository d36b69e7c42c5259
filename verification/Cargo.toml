[package]
name = "rustcharge"
version = "0.1.0"
edition = "2021"
publish = false

[dependencies]
battery = "*"
clap = { version = "*", features = ["derive"] }
notify-rust = "*"
rodio = "*"
