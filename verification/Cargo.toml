[package]
name = "wasm_plugin"
version = "0.1.0"
edition = "2021"
publish = false

[dependencies]
wasmer = "=6.1.0"
