[package]
name = "jobshell"
version = "0.1.0"
edition = "2021"
publish = false

[dependencies]
crossterm = "0.28"
ratatui = "0.29"
nix = { version = "0.29", features = ["term", "fs", "process", "ioctl", "signal"] }
close_fds = "0.3"
