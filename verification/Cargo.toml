[package]
name = "co_no2_calibrator"
version = "0.1.0"
edition = "2021"
publish = false

[dependencies]
libmodbus-rs = "*"
gtk = "*"
