[package]
name = "demo_processor"
version = "0.1.0"
edition = "2021"
publish = false

[dependencies]
duckdb = "*"
indicatif = "0.17"
pyo3 = "0.20"
