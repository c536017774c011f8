[package]
name = "soundclip"
version = "0.1.0"
edition = "2021"
publish = false

[dependencies]
futures = "0.1"
rodio = "0.8"
