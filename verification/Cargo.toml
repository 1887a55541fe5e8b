[package]
name = "morseus"
version = "0.1.0"
edition = "2021"
publish = false

[dependencies]
hound = "3.5"
rodio = { version = "0.17", default-features = false }
