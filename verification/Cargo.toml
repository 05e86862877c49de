[package]
name = "rsh"
version = "0.1.0"
edition = "2021"
publish = false

[dependencies]
exec = "*"
nix = { version = "*", features = ["process"] }
rustix = { version = "*", features = ["fs", "pipe", "process", "stdio"] }
