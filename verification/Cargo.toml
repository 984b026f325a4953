[package]
name = "jput"
version = "0.1.2"
edition = "2021"
publish = false

[dependencies]
colored = "=2.2.0"
unicode-width = "=0.1.11"
