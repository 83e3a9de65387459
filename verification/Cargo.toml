[package]
name = "accel_core"
version = "0.1.0"
edition = "2021"
publish = false

[dependencies]
sysinfo = "*"
pyo3 = "*"
