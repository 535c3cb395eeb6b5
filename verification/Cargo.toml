[package]
name = "batimg"
version = "0.1.0"
edition = "2021"
publish = false

[dependencies]
image = "*"
clap = "*"
ctrlc = "*"
terminal_size = "*"
regex = "*"
tempfile = "*"
ffmpeg-next = "*"
rodio = "*"
