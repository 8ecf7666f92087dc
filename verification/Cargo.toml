[package]
name = "compressible"
version = "0.1.0"
edition = "2021"

[dependencies]
mime = "0.3.16"
