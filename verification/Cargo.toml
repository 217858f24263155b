[package]
name = "validation_errors"
version = "0.1.0"
edition = "2021"
publish = false

[dependencies]
pyo3 = "0.19"
serde = "1"
serde_json = { version = "1", features = ["preserve_order"] }
