[package]
name = "futures_contract"
version = "0.1.0"
edition = "2021"
publish = false

[dependencies]
rust_decimal = "=1.43.0"
pyo3 = { version = "=0.20.3", features = ["abi3-py38", "rust_decimal"] }
