[package]
name = "hotsync_conduit_rs"
version = "0.1.0"
edition = "2021"
publish = false

[dependencies]
bitflags = "2"
dlopen2 = "*"
log = "*"
