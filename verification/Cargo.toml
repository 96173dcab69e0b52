[package]
name = "strikeface"
version = "0.1.0"
edition = "2021"
publish = false

[dependencies]
zeroize = "1"
chrono = "0.4"
crossterm = "0.28"
ratatui = "0.29"
pam-sys = "0.5"
thiserror = "2"
nix = { version = "0.29", features = ["user", "process"] }
libc = "0.2"
