[package]
name = "lemurs"
version = "0.1.0"
edition = "2021"
publish = false

[dependencies]
nix = { version = "*", features = ["user"] }
users = "0.11"
crossterm = "0.25"
tui = "0.19"
log = "0.4"
