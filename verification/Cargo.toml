[package]
name = "packet_parser"
version = "0.1.0"
edition = "2021"
publish = false

[dev-dependencies]
deku = "=0.16.0"
