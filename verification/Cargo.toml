[package]
name = "ispc"
version = "0.1.0"
edition = "2021"
publish = false

[dependencies]
libc = "=0.2.190"
num_cpus = "=1.17.0"
