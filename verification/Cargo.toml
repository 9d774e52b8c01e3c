[package]
name = "daw_out"
version = "0.1.0"
edition = "2021"
publish = false

[dependencies]
crossbeam-channel = "=0.5.17"
rubato = "=0.12.0"

[dev-dependencies]
rosc = "=0.11.4"
