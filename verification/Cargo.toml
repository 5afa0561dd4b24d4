[package]
name = "yttui"
version = "0.1.2"
edition = "2021"
publish = false

[dependencies]
clap = { version = "=4.6.7", features = ["derive"] }
command-group = "=5.0.1"
crossterm = "=0.28.1"
dirs = "=6.0.0"
log = "=0.4.35"
nix = { version = "=0.29.0", features = ["signal"] }
ratatui = "=0.29.0"
serde = { version = "=1.0.229", features = ["derive"] }
serde_json = "=1.0.154"
signal-hook = "=0.3.18"
simplelog = "=0.12.2"
toml = "=0.8.23"
unicode-width = "=0.2.0"
which = "=7.0.3"
