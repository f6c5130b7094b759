[package]
name = "rowformula"
version = "0.1.0"
edition = "2021"
publish = false

[dependencies]
anyhow = "1"
Boa = "=0.13.1"
csv = "=1.4.0"
