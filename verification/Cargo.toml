[package]
name = "bombuscv-buttons"
version = "0.1.0"
edition = "2021"
publish = false

[dependencies]
nix = { version = "*", features = ["process", "signal"] }
procfs = "*"
rppal = "*"
