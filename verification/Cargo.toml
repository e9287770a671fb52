[package]
name = "rv32i_core"
version = "0.1.0"
edition = "2021"
publish = false

[dependencies]
bitfield = "*"
byteorder = "1"
