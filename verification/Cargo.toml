[package]
name = "nh"
version = "0.1.0"
edition = "2021"
publish = false

[dependencies]
regex = "=1.13.1"
semver = "1"
clap = { version = "=4.6.7", features = ["derive"] }
humantime = "=2.4.0"
nix = { version = "=0.30.1", features = ["fs", "user"] }
dialoguer = { version = "=0.11.0", default-features = false }
owo-colors = "=4.4.0"
uzers = "=0.12.2"
tracing = "=0.1.44"
color-eyre = "=0.6.5"
hostname = "0.4"
