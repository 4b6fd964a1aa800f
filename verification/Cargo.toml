[package]
name = "cargo_ramdisk"
version = "0.1.0"
edition = "2021"
publish = false

[dependencies]
nanoid = "*"
structopt = "*"
carlog = "*"
