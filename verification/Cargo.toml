[package]
name = "jitdump_agent"
version = "0.1.0"
edition = "2021"
publish = false

[dependencies]
byteorder = "1"
chrono = "0.4"
env_logger = "0.9"
lazy_static = "1"
libc = "0.2"
log = "0.4"
nix = "0.25"
rand = "0.7"
thiserror = "1"
