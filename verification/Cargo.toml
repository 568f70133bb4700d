[package]
name = "metamorphosis"
version = "0.1.0"
edition = "2021"
publish = false

[dependencies]
js_ffi = "0.6"
globals = "=1.0.5"
