[package]
name = "ccextractor"
version = "0.1.0"
edition = "2021"
publish = false

[dependencies]
cstr = "0.2"
freetype-sys = "0.13"
