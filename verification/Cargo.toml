[package]
name = "lfit_rs"
version = "0.1.0"
edition = "2021"
publish = false

[dependencies]
pyo3 = "=0.28.3"
rayon = "=1.12.0"
rust-roche = "=0.5.1"
