[package]
name = "clvecadd"
version = "0.1.0"
edition = "2021"
publish = false

[dependencies]
opencl3 = "*"
log = "*"
log4rs = "*"
num-traits = "*"
half = "*"
