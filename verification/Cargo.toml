[package]
name = "mem_state"
version = "0.1.0"
edition = "2021"
publish = false

[dependencies]
cached = "=0.55.1"
once_cell = "=1.21.4"
