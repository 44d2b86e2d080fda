[package]
name = "muta_apm"
version = "0.1.0"
edition = "2021"
publish = false

[dependencies]
crossbeam-channel = "*"
lazy_static = "*"
parking_lot = "*"
rustracing = "*"
rustracing_jaeger = "*"
