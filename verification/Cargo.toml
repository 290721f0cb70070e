[package]
name = "unity"
version = "0.1.0"
edition = "2021"
publish = false

[dependencies]
lazysimd = "=0.1.0"
thiserror = "=1.0.69"
