[package]
name = "metrics_process"
version = "0.1.0"
edition = "2021"
publish = false

[dependencies]
procfs = "*"
rlimit = "*"
libc = "*"
metrics = "*"
