[package]
name = "rintty"
version = "0.1.0"
edition = "2021"
publish = false

[dependencies]
vte = "0.15"
ratatui = "0.29"
crossterm = "0.28"
nix = { version = "0.30", features = ["fs", "term", "process", "user"] }
libc = "0.2"
log = "0.4"
simplelog = "0.12"
clap = { version = "4", features = ["derive"] }
pam = "0.7"
