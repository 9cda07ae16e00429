[package]
name = "signal_device"
version = "0.1.0"
edition = "2021"
publish = false

[dependencies]
modbus = "*"
yaml-rust = "*"
