[package]
name = "tls_detour"
version = "0.1.0"
edition = "2021"
publish = false

[dependencies]
hyper = { version = "0.14", default-features = false, features = ["client", "tcp"] }
native-tls = "0.2"
tokio = "1"
