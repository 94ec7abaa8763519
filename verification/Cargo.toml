[package]
name = "solver_harness"
version = "0.1.0"
edition = "2021"
publish = false

[dependencies]
rand = "=0.8.8"
libloading = "=0.9.0"
pyo3 = "=0.29.3"
serde = { version = "=1.0.229", features = ["derive"] }
serde_json = "=1.0.151"
tokio = { version = "=1.53.2", features = ["macros", "rt-multi-thread"] }
warp = { version = "=0.4.3", features = ["server"] }
