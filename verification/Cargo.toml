[package]
name = "ruwi"
version = "0.1.0"
edition = "2021"
publish = false

[dependencies]
regex = "1"
unescape = "0.1"
clap = "2"
nix = "0.17"
strum = "0.18"
strum_macros = "0.18"
