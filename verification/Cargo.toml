[package]
name = "rustgen"
version = "0.1.0"
edition = "2021"

[dependencies]
proc-macro2 = "1"
