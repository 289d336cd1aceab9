[package]
name = "ndi_sdk"
version = "0.1.0"
edition = "2021"
publish = false

[dependencies]
libloading = "*"
ptrplus = "*"
