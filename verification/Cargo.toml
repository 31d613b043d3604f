[package]
name = "pydeno"
version = "0.1.0"
edition = "2021"
publish = false

[dependencies]
deno_core = "*"
deno_error = "*"
futures = "*"
indexmap = "2"
log = "0.4"
num-bigint = "0.4"
pyo3 = { version = "*", features = ["num-bigint"] }
pyo3-async-runtimes = { version = "*", features = ["tokio-runtime"] }
serde = { version = "1", features = ["derive"] }
serde_bytes = "0.11"
tokio = { version = "1", features = ["rt", "sync", "time", "macros"] }
url = "2"
uuid = { version = "1", features = ["v4"] }
