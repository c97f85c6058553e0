[package]
name = "signal_processing"
version = "0.1.0"
edition = "2021"
publish = false

[dependencies]
ndarray = "*"
num-complex = "*"
scirs2 = "*"
scirs2-fft = "*"
