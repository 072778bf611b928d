[package]
name = "fuse_dsp"
version = "0.1.0"
edition = "2021"
publish = false

[dependencies]
clap = { version = "4", features = ["derive"] }
env_logger = "*"
fuser = { version = "*", default-features = false }
libc = "0.2"
log = "0.4"
