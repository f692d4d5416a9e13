[package]
name = "gravlib"
version = "0.1.0"
edition = "2021"
publish = false

[dependencies]
embassy-sync = "*"
libm = "0.2"
once_cell = "1"
spin = "0.9"
vexide = "0.7"
