[package]
name = "ir_tac"
version = "0.1.0"
edition = "2021"
publish = false

[dependencies]
evmil = "*"
primitive-types = "*"
