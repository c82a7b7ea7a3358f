[package]
name = "dioxus_codegen"
version = "0.1.0"
edition = "2021"
publish = false

[dependencies]
convert_case = "0.6.0"
