[package]
name = "chia-consensus"
version = "0.1.0"
edition = "2021"
publish = false

[dependencies]
clvmr = "=0.17.0"
pyo3 = { version = "=0.30.1", default-features = false }

[dev-dependencies]
bitflags = "=2.13.2"
