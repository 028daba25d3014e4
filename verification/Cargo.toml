[package]
name = "avf"
version = "0.1.0"
edition = "2021"
publish = false

[dependencies]
tinyvec = "=1.13.3"
android_logger = "0.11"
anyhow = "1"
clap = "2"
libc = "0.2"
log = "0.4"
nix = "0.26"
scopeguard = "1"
