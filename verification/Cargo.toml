[package]
name = "avatar_cli"
version = "0.1.0"
edition = "2021"
publish = false

[dependencies]
atty = "0.2"
nix = { version = "0.29", features = ["user"] }
rand = "0.8"
which = "4"
