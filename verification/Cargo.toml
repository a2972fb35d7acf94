[package]
name = "iced-recorder"
version = "0.1.0"
edition = "2021"
publish = false

[dependencies]
mp3lame-encoder = "0.2"
hound = "3.5"
cpal = "0.15"
thiserror = "1"
anyhow = "1"
clap = { version = "4", features = ["derive"] }
fastrand = "2"
