[package]
name = "intel_spi"
version = "0.1.0"
edition = "2021"
publish = false

[dependencies]
coreboot-fs = "=0.1.1"
libc = "=0.2.190"
