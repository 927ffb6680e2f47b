[package]
name = "terminable"
version = "0.1.0"
edition = "2021"
publish = false

[dependencies]
crossterm = "=0.24.0"
pyo3 = { version = "=0.20.3", features = ["extension-module"] }
