[package]
name = "regdump"
version = "0.1.0"
edition = "2021"
publish = false

[dependencies]
libc = "=0.2.190"
mach2 = "=0.4.3"
