[package]
name = "plugin_codegen"
version = "0.1.0"
edition = "2021"
publish = false

[dependencies]
syn = { version = "*", features = ["full"] }
