[package]
name = "xous_core"
version = "0.1.0"
edition = "2021"
publish = false

[dependencies]
xous = "=0.9.71"
xous-ipc = "=0.9.63"
utralib = { version = "=0.1.27", default-features = false, features = ["precursor", "precursor-pvt"] }
xous-riscv = "=0.5.6"
log = "=0.4.34"
