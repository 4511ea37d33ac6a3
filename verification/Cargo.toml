[package]
name = "bluster"
version = "0.1.0"
edition = "2021"
publish = false

[dependencies]
log = "0.4"
objc = "0.2"
objc-foundation = "0.1"
