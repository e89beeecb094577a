[package]
name = "english_auction"
version = "0.1.0"
edition = "2021"
publish = false

[dependencies]
alloy-primitives = "=0.3.3"
alloy-sol-types = "=0.3.1"
mini-alloc = "=0.4.2"
ruint = "~1.11"
stylus-sdk = "=0.4.3"
