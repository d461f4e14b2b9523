[package]
name = "pexe_runner"
version = "0.1.0"
edition = "2021"
publish = false

[dependencies]
rust-crypto = "0.2"
sha2 = "0.10"
libc = "0.2"
log = "0.4"
env_logger = "0.10"
