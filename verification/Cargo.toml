[package]
name = "sozu_logging"
version = "0.1.0"
edition = "2021"
publish = false

[dependencies]
libc = "0.2"
log = "0.3"
time = "0.1"
mio-uds = "0.6"
