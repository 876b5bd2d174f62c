[package]
name = "ak8963"
version = "0.2.0"
edition = "2021"
publish = false

[dependencies]
i2cdev = "*"
ndarray = "*"
