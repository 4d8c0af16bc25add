[package]
name = "mozim_clib"
version = "0.1.0"
edition = "2021"
publish = false

[dependencies]
mozim = "=0.2.7"
log = "=0.4.34"
once_cell = "=1.21.4"
