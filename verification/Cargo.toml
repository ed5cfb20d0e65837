[package]
name = "grafeo"
version = "0.1.0"
edition = "2021"
publish = false

[dependencies]
arcstr = "=1.2.0"
