[package]
name = "pyraystack"
version = "0.1.0"
edition = "2021"
publish = false

[dependencies]
chrono = "=0.4.45"
chrono-tz = "=0.5.3"
pyo3 = "=0.30.1"
raystack = "=0.8.2"
tokio = { version = "=1.54.1", features = ["rt", "rt-multi-thread"] }
url = "=2.5.8"
