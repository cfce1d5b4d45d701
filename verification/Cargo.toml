[package]
name = "stadium_eq"
version = "0.1.0"
edition = "2021"
publish = false

[dependencies]
anyhow = "1"
clap = { version = "4", features = ["derive"] }
cpal = "0.15"
hound = "3"
num-complex = "0.4"
realfft = "3"
