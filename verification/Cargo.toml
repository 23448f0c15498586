[package]
name = "audio_spectrum"
version = "0.1.0"
edition = "2021"
publish = false

[dependencies]
hound = "=3.5.1"
nannou = { version = "0.18", default-features = false }
rustfft = "=6.4.1"
