[package]
name = "truck_ffi"
version = "0.1.0"
edition = "2021"
publish = false

[dependencies]
ruststep = "*"
truck-meshalgo = "*"
truck-polymesh = "*"
truck-stepio = "*"
truck-topology = "*"
