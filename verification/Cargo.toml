[package]
name = "lovely_injector_nx"
version = "0.1.0"
edition = "2021"
publish = false

[dependencies]
skyline = "*"
