[package]
name = "rover_control"
version = "0.1.0"
edition = "2021"
publish = false

[dependencies]
i2cdev = "*"

[dev-dependencies]
byteorder = "*"
