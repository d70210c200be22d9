[package]
name = "ds18b20"
version = "0.1.0"
edition = "2021"
publish = false

[dependencies]
one-wire-bus = "=0.1.1"
embedded-hal = { version = "=0.2.7", features = ["unproven"] }
embassy-time = "=0.5.1"
