[package]
name = "si7021"
version = "0.2.0"
edition = "2021"
publish = false

[dependencies]
byteorder = "1"
i2cdev = "*"
i2csensors = "*"
