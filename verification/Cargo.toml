[package]
name = "runtime_interface"
version = "0.1.0"
edition = "2021"
publish = false

[dependencies]
parity-scale-codec = "*"
proc-macro2 = "*"
quote = "*"
syn = { version = "*", features = ["full"] }
proc-macro-crate = "*"
Inflector = "*"
