[package]
name = "chalk_wf"
version = "0.1.0"
edition = "2021"
publish = false

[dependencies]
chalk-ir = "=0.11.0"
