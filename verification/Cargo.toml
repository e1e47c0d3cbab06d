[package]
name = "polysynth"
version = "0.1.0"
edition = "2021"
publish = false

[dependencies]
anyhow = "1"
cpal = "0.15"
device_query = "2"
ringbuf = "0.4"
