[package]
name = "minijinja_bridge"
version = "0.1.0"
edition = "2021"
publish = false

[dependencies]
minijinja = "*"
pyo3 = { version = "*", features = ["auto-initialize"] }
