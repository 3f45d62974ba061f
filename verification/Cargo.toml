[package]
name = "libsql_bindings"
version = "0.1.0"
edition = "2021"
publish = false

[dependencies]
libsql = "=0.9.30"
tokio = { version = "=1.53.2", features = ["rt-multi-thread"] }
hyper-rustls = { version = "=0.25.0", features = ["webpki-roots"] }
lazy_static = "=1.5.1"
bytes = "=1.12.1"
tracing-subscriber = "=0.3.23"
