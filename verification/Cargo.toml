[package]
name = "pyo3_pydantic"
version = "0.1.0"
edition = "2021"
publish = false

[dependencies]
pyo3 = { version = "0.21", features = ["auto-initialize"] }
serde = { version = "1", features = ["derive"] }
serde_json = "1"
thiserror = "1"
