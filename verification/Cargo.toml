[package]
name = "atum"
version = "0.1.0"
edition = "2021"
publish = false

[dependencies]
vexide = "=0.8.0"
vex-sdk = "=0.28.0"
uom = "=0.38.0"
log = "=0.4.34"
