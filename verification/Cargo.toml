[package]
name = "font_families"
version = "0.1.0"
edition = "2021"
publish = false

[dependencies]
convert_case = "=0.12.0"
font-kit = "=0.14.3"
