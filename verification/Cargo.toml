[package]
name = "tls_rustls"
version = "0.1.0"
edition = "2021"
publish = false

[dependencies]
rustls = { version = "=0.20.9", features = ["dangerous_configuration"] }
webpki = "=0.22.4"
anyhow = "=1.0.104"
openssl = "=0.10.82"
custom-utils = { version = "=0.16.0", features = ["tls"] }
tokio = { version = "=1.54.1", features = ["rt-multi-thread", "macros"] }
