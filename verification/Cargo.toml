[package]
name = "polysynth"
version = "0.1.0"
edition = "2021"
publish = false

[dependencies]
anyhow = "1"
cpal = "0.15"
midir = "0.10"
ringbuf = "0.3"
