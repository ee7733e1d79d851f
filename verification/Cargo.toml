[package]
name = "yacari"
version = "0.1.0"
edition = "2021"
publish = false

[dependencies]
cranelift = "0.76.0"
cranelift-jit = "0.76.0"
cranelift-module = "0.76.0"
hashbrown = "0.9.1"
indexmap = "1.7.0"
memmap = "0.7.0"
smallvec = "1.6.1"
