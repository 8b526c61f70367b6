[package]
name = "zlib_py"
version = "0.1.0"
edition = "2021"
publish = false

[dependencies]
zlib-rs = "=0.6.3"
pyo3 = "=0.23.5"
