[package]
name = "wasmi_core"
version = "0.1.0"
edition = "2021"

[dependencies]
wasmparser = "*"
