[package]
name = "mouse_relay"
version = "0.1.0"
edition = "2021"
publish = false

[dependencies]
evdev = "*"
nix = { version = "*", features = ["user"] }
log = "*"
env_logger = "*"
