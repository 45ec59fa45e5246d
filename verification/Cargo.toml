[package]
name = "structural"
version = "0.1.0"
edition = "2021"
publish = false

[dependencies]
core_extensions = { version = "=0.1.20", default-features = false, features = ["colltraits"] }
proc-macro2 = "=1.0.107"
quote = "=1.0.47"
syn = "=1.0.109"
