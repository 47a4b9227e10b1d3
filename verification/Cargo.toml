[package]
name = "rack"
version = "0.1.0"
edition = "2021"
publish = false

[dependencies]
smallvec = "1"
aligned-vec = "0.6"
thiserror = "1"
