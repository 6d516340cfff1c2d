[package]
name = "anydoc_pdf"
version = "0.1.0"
edition = "2021"
publish = false

[dependencies]
pdf-inspector = "=1.25.2"
serde = { version = "=1.0.229", features = ["derive"] }
napi = "=3.16.1"
napi-derive = "=3.7.0"
pyo3 = "=0.30.1"
log = "=0.4.35"
