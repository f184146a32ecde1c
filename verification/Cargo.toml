[package]
name = "frish"
version = "0.1.0"
edition = "2021"
publish = false

[dependencies]
env_logger = "0.9"
libc = "0.2"
log = "0.4"
nix = "0.26"
