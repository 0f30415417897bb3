[package]
name = "obsbot-core"
version = "0.4.2"
edition = "2021"
publish = false

[dependencies]
clap = { version = "4", features = ["derive"] }
nix = { version = "0.29", features = ["ioctl"] }
thiserror = "2"
tracing = "0.1"
v4l = "0.14"
