[package]
name = "librazer"
version = "0.1.0"
edition = "2021"
publish = false

[dependencies]
colored = "2"
dialoguer = "0.11"
log = "0.4"
