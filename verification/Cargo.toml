[package]
name = "sigrok_rs"
version = "0.1.0"
edition = "2021"
publish = false

[dependencies]
glib = "*"
libsigrok-sys = "*"
thiserror = "*"
