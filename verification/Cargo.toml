[package]
name = "pisky"
version = "0.1.0"
edition = "2021"
publish = false

[dependencies]
bytes = "=1.12.1"
env_logger = "=0.11.11"
log = "=0.4.34"
pyo3 = "=0.30.1"
pyo3-bytes = "=0.8.0"
