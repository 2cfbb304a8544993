[package]
name = "gerg_ui"
version = "0.1.0"
edition = "2021"
publish = false

[dependencies]
hex = "0.4"
