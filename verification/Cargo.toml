[package]
name = "paulstretch_rust"
version = "0.1.0"
edition = "2021"

[dependencies]
clap = { version = "4", features = ["derive"] }
hound = "3"
rand = "0.8"
realfft = "3"
rustfft = "6"
