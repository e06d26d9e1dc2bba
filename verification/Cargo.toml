[package]
name = "subvertpy"
version = "0.1.0"
edition = "2021"
publish = false

[dependencies]
apr = "*"
pyo3 = "*"
pyo3-file = "*"
subversion = "*"
