[package]
name = "mbedtls_bindgen"
version = "0.1.0"
edition = "2021"
publish = false

[dependencies]
bindgen = { version = "=0.65.1", default-features = false, features = ["runtime"] }
cc = "=1.10.0"
quote = "=1.0.47"
syn = { version = "=2.0.119", features = ["full", "visit"] }

[dev-dependencies]
proc-macro2 = "=1.0.107"
regex = "=1.13.1"
