[package]
name = "quantum_consciousness"
version = "0.1.0"
edition = "2021"
publish = false

[dependencies]
rand = "0.8"
pyo3 = "0.20"
