[package]
name = "audioscan"
version = "0.1.0"
edition = "2021"
publish = false

[dependencies]
rustfft = "*"
num-complex = "*"
serde_json = "*"
walkdir = "*"

[dev-dependencies]
hound = "*"
