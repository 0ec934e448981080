[package]
name = "minicontainer"
version = "0.1.0"
edition = "2021"
publish = false

[dependencies]
nix = { version = "0.29", features = ["fs", "hostname", "mount", "process", "sched", "signal", "socket", "uio", "user", "term"] }
