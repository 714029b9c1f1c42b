[package]
name = "ecc_transport"
version = "0.1.0"
edition = "2021"
publish = false

[dependencies]
bytes = "1"
i2c-linux = "0.1"
serialport = { version = "4", default-features = false }
