[package]
name = "facet_reflect"
version = "0.1.0"
edition = "2021"
publish = false

[dependencies]
facet-core = { version = "=0.42.0", features = ["alloc", "std", "fn-ptr", "nonzero"] }
