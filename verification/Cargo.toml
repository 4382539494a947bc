[package]
name = "mozjs"
version = "0.1.0"
edition = "2021"
publish = false

[dependencies]
heapsize = "*"
lazy_static = "*"
libc = "*"
log = "*"
mozjs_sys = "*"
num-traits = "*"
