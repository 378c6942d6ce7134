[package]
name = "wlsctx"
version = "0.1.0"
edition = "2021"
publish = false

[dependencies]
clap = { version = "*", features = ["derive", "env"] }
env_logger = "*"
log = "*"
nix = { version = "*", features = ["signal", "process"] }
sd-notify = "*"
wayland-client = "*"
wayland-protocols = { version = "*", features = ["client", "staging"] }
xdg = "*"
