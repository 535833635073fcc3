[package]
name = "oxdz"
version = "0.1.0"
edition = "2021"
publish = false

[dependencies]
getopts = "*"
memmap = "*"
riff-wave = "*"
