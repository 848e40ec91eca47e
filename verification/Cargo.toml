[package]
name = "wcf_native"
version = "0.1.0"
edition = "2021"
publish = false

[dependencies]
nng = { version = "=1.0.1", default-features = false }
napi = "=2.16.17"
napi-derive = "=2.16.13"
