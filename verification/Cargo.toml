[package]
name = "serde_piecewise_default"
version = "0.1.0"
edition = "2021"
publish = false

[dependencies]
syn = "*"
quote = "*"
proc-macro2 = "*"

[dev-dependencies]
serde_json = "*"
