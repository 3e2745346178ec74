[package]
name = "tracer"
version = "0.1.0"
edition = "2021"
publish = false

[dependencies]
bytemuck = "1"
byteorder = "1"
libbpf-rs = "0.23"
object = "*"
