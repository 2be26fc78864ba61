[package]
name = "proc_sys_parser"
version = "0.1.0"
edition = "2021"
publish = false

[dependencies]
nix = { version = "*", features = ["feature"] }
regex = "*"
