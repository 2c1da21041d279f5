[package]
name = "leptonic_modal"
version = "0.1.0"
edition = "2021"
publish = false

[dependencies]
indexmap = { version = "=2.14.2", features = ["std"] }
uuid = { version = "=1.27.0", features = ["v4"] }
leptos = { version = "=0.3.1", features = ["csr", "stable"] }
tracing = "=0.1.44"
