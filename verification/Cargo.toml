[package]
name = "input_poll"
version = "0.1.0"
edition = "2021"
publish = false

[dependencies]
evdev = "0.11"
nix = "0.23"
